//! The closed set of channel events that the hub understands, and the
//! messages that carry them between the ingestion client, the narrator and
//! the broadcast hub.
//!
//! Every type has a view that replaces its strings by sequences of
//! characters; contracts elsewhere in the crate are stated over these views.

use vstd::prelude::*;

verus! {

/// Subscription tier together with the label under which it is presented.
#[derive(Debug, PartialEq, Eq)]
pub enum NullSubTier {
    /// Tier 1.
    Tier1(String),
    /// Tier 2.
    Tier2(String),
    /// Tier 3.
    Tier3(String),
    /// Prime subscription.
    Prime(String),
    /// Any tier the platform adds later; carries the platform's own name.
    Other(String),
}

pub enum NullSubTierView {
    Tier1(Seq<char>),
    Tier2(Seq<char>),
    Tier3(Seq<char>),
    Prime(Seq<char>),
    Other(Seq<char>),
}

impl View for NullSubTier {
    type V = NullSubTierView;

    open spec fn view(&self) -> NullSubTierView {
        match *self {
            NullSubTier::Tier1(s) => NullSubTierView::Tier1(s@),
            NullSubTier::Tier2(s) => NullSubTierView::Tier2(s@),
            NullSubTier::Tier3(s) => NullSubTierView::Tier3(s@),
            NullSubTier::Prime(s) => NullSubTierView::Prime(s@),
            NullSubTier::Other(s) => NullSubTierView::Other(s@),
        }
    }
}

impl NullSubTier {
    /// The label carried by the tier, whichever tier it is.
    pub open spec fn spec_label(self) -> Seq<char> {
        match self {
            NullSubTier::Tier1(s) => s@,
            NullSubTier::Tier2(s) => s@,
            NullSubTier::Tier3(s) => s@,
            NullSubTier::Prime(s) => s@,
            NullSubTier::Other(s) => s@,
        }
    }

    /// The label carried by the tier, whichever tier it is.
    pub fn label(&self) -> (label: &str)
        ensures
            label@ == self.spec_label(),
    {
        match self {
            NullSubTier::Tier1(s) => s.as_str(),
            NullSubTier::Tier2(s) => s.as_str(),
            NullSubTier::Tier3(s) => s.as_str(),
            NullSubTier::Prime(s) => s.as_str(),
            NullSubTier::Other(s) => s.as_str(),
        }
    }
}

impl Clone for NullSubTier {
    fn clone(&self) -> (copy: Self)
        ensures
            copy == *self,
    {
        match self {
            NullSubTier::Tier1(s) => NullSubTier::Tier1(s.clone()),
            NullSubTier::Tier2(s) => NullSubTier::Tier2(s.clone()),
            NullSubTier::Tier3(s) => NullSubTier::Tier3(s.clone()),
            NullSubTier::Prime(s) => NullSubTier::Prime(s.clone()),
            NullSubTier::Other(s) => NullSubTier::Other(s.clone()),
        }
    }
}

/// A viewer started following the channel.
#[derive(Debug, PartialEq, Eq)]
pub struct FollowEvent {
    pub user_name: String,
    pub user_id: i64,
}

pub struct FollowEventView {
    pub user_name: Seq<char>,
    pub user_id: i64,
}

impl View for FollowEvent {
    type V = FollowEventView;

    open spec fn view(&self) -> FollowEventView {
        FollowEventView { user_name: self.user_name@, user_id: self.user_id }
    }
}

impl Clone for FollowEvent {
    fn clone(&self) -> (copy: Self)
        ensures
            copy == *self,
    {
        FollowEvent { user_name: self.user_name.clone(), user_id: self.user_id }
    }
}

/// A viewer cheered with bits.
#[derive(Debug, PartialEq, Eq)]
pub struct CheerEvent {
    pub user_name: String,
    pub user_id: i64,
    pub bits: i64,
    pub message: String,
}

pub struct CheerEventView {
    pub user_name: Seq<char>,
    pub user_id: i64,
    pub bits: i64,
    pub message: Seq<char>,
}

impl View for CheerEvent {
    type V = CheerEventView;

    open spec fn view(&self) -> CheerEventView {
        CheerEventView {
            user_name: self.user_name@,
            user_id: self.user_id,
            bits: self.bits,
            message: self.message@,
        }
    }
}

impl Clone for CheerEvent {
    fn clone(&self) -> (copy: Self)
        ensures
            copy == *self,
    {
        CheerEvent {
            user_name: self.user_name.clone(),
            user_id: self.user_id,
            bits: self.bits,
            message: self.message.clone(),
        }
    }
}

/// Another broadcaster raided the channel.
#[derive(Debug, PartialEq, Eq)]
pub struct RaidEvent {
    pub from_broadcaster_user_id: String,
    pub from_broadcaster_user_login: String,
    pub from_broadcaster_user_name: String,
    pub to_broadcaster_user_id: String,
    pub to_broadcaster_user_login: String,
    pub to_broadcaster_user_name: String,
    pub viewers: i64,
}

pub struct RaidEventView {
    pub from_broadcaster_user_id: Seq<char>,
    pub from_broadcaster_user_login: Seq<char>,
    pub from_broadcaster_user_name: Seq<char>,
    pub to_broadcaster_user_id: Seq<char>,
    pub to_broadcaster_user_login: Seq<char>,
    pub to_broadcaster_user_name: Seq<char>,
    pub viewers: i64,
}

impl View for RaidEvent {
    type V = RaidEventView;

    open spec fn view(&self) -> RaidEventView {
        RaidEventView {
            from_broadcaster_user_id: self.from_broadcaster_user_id@,
            from_broadcaster_user_login: self.from_broadcaster_user_login@,
            from_broadcaster_user_name: self.from_broadcaster_user_name@,
            to_broadcaster_user_id: self.to_broadcaster_user_id@,
            to_broadcaster_user_login: self.to_broadcaster_user_login@,
            to_broadcaster_user_name: self.to_broadcaster_user_name@,
            viewers: self.viewers,
        }
    }
}

impl Clone for RaidEvent {
    fn clone(&self) -> (copy: Self)
        ensures
            copy == *self,
    {
        RaidEvent {
            from_broadcaster_user_id: self.from_broadcaster_user_id.clone(),
            from_broadcaster_user_login: self.from_broadcaster_user_login.clone(),
            from_broadcaster_user_name: self.from_broadcaster_user_name.clone(),
            to_broadcaster_user_id: self.to_broadcaster_user_id.clone(),
            to_broadcaster_user_login: self.to_broadcaster_user_login.clone(),
            to_broadcaster_user_name: self.to_broadcaster_user_name.clone(),
            viewers: self.viewers,
        }
    }
}

/// A viewer subscribed, or announced a renewed subscription.
#[derive(Debug, PartialEq, Eq)]
pub struct SubscribeEvent {
    pub broadcaster_user_id: i64,
    pub broadcaster_user_name: String,
    pub user_name: String,
    pub user_id: i64,
    pub is_gift: bool,
    pub tier: NullSubTier,
    pub cumulative_months: i64,
    pub duration_months: i64,
    pub message: String,
    pub streak_months: Option<i64>,
}

pub struct SubscribeEventView {
    pub broadcaster_user_id: i64,
    pub broadcaster_user_name: Seq<char>,
    pub user_name: Seq<char>,
    pub user_id: i64,
    pub is_gift: bool,
    pub tier: NullSubTierView,
    pub cumulative_months: i64,
    pub duration_months: i64,
    pub message: Seq<char>,
    pub streak_months: Option<i64>,
}

impl View for SubscribeEvent {
    type V = SubscribeEventView;

    open spec fn view(&self) -> SubscribeEventView {
        SubscribeEventView {
            broadcaster_user_id: self.broadcaster_user_id,
            broadcaster_user_name: self.broadcaster_user_name@,
            user_name: self.user_name@,
            user_id: self.user_id,
            is_gift: self.is_gift,
            tier: self.tier@,
            cumulative_months: self.cumulative_months,
            duration_months: self.duration_months,
            message: self.message@,
            streak_months: self.streak_months,
        }
    }
}

impl Clone for SubscribeEvent {
    fn clone(&self) -> (copy: Self)
        ensures
            copy == *self,
    {
        SubscribeEvent {
            broadcaster_user_id: self.broadcaster_user_id,
            broadcaster_user_name: self.broadcaster_user_name.clone(),
            user_name: self.user_name.clone(),
            user_id: self.user_id,
            is_gift: self.is_gift,
            tier: self.tier.clone(),
            cumulative_months: self.cumulative_months,
            duration_months: self.duration_months,
            message: self.message.clone(),
            streak_months: self.streak_months,
        }
    }
}

/// A viewer gifted subscriptions to the channel's community.
#[derive(Debug, PartialEq, Eq)]
pub struct ChannelGiftMessage {
    /// The broadcaster user ID.
    pub broadcaster_user_id: String,
    /// The broadcaster login.
    pub broadcaster_user_login: String,
    /// The broadcaster display name.
    pub broadcaster_user_name: String,
    /// The number of subscriptions gifted by this user in the channel;
    /// absent for anonymous gifts or when the gifter does not share it.
    pub cumulative_total: Option<i64>,
    /// Whether the subscription gift was anonymous.
    pub is_anonymous: bool,
    /// The tier of the gifted subscriptions.
    pub tier: NullSubTier,
    /// The number of subscriptions in the gift.
    pub total: i64,
    /// The user ID of the gifter; absent for an anonymous gift.
    pub user_id: Option<String>,
    /// The user login of the gifter; absent for an anonymous gift.
    pub user_login: Option<String>,
    /// The display name of the gifter; absent for an anonymous gift.
    pub user_name: Option<String>,
}

pub struct ChannelGiftMessageView {
    pub broadcaster_user_id: Seq<char>,
    pub broadcaster_user_login: Seq<char>,
    pub broadcaster_user_name: Seq<char>,
    pub cumulative_total: Option<i64>,
    pub is_anonymous: bool,
    pub tier: NullSubTierView,
    pub total: i64,
    pub user_id: Option<Seq<char>>,
    pub user_login: Option<Seq<char>>,
    pub user_name: Option<Seq<char>>,
}

/// The characters of an optional string.
pub open spec fn opt_chars(s: Option<String>) -> Option<Seq<char>> {
    match s {
        Some(s) => Some(s@),
        None => None,
    }
}

/// An owned copy of an optional text: `None` stays `None`.
pub fn braid_optional_to_string_optional(input: &Option<String>) -> (copy: Option<String>)
    ensures
        copy == *input,
{
    match input {
        None => None,
        Some(thing) => Some(thing.clone()),
    }
}

impl View for ChannelGiftMessage {
    type V = ChannelGiftMessageView;

    open spec fn view(&self) -> ChannelGiftMessageView {
        ChannelGiftMessageView {
            broadcaster_user_id: self.broadcaster_user_id@,
            broadcaster_user_login: self.broadcaster_user_login@,
            broadcaster_user_name: self.broadcaster_user_name@,
            cumulative_total: self.cumulative_total,
            is_anonymous: self.is_anonymous,
            tier: self.tier@,
            total: self.total,
            user_id: opt_chars(self.user_id),
            user_login: opt_chars(self.user_login),
            user_name: opt_chars(self.user_name),
        }
    }
}

impl Clone for ChannelGiftMessage {
    fn clone(&self) -> (copy: Self)
        ensures
            copy == *self,
    {
        ChannelGiftMessage {
            broadcaster_user_id: self.broadcaster_user_id.clone(),
            broadcaster_user_login: self.broadcaster_user_login.clone(),
            broadcaster_user_name: self.broadcaster_user_name.clone(),
            cumulative_total: self.cumulative_total,
            is_anonymous: self.is_anonymous,
            tier: self.tier.clone(),
            total: self.total,
            user_id: braid_optional_to_string_optional(&self.user_id),
            user_login: braid_optional_to_string_optional(&self.user_login),
            user_name: braid_optional_to_string_optional(&self.user_name),
        }
    }
}

/// One supported channel activity. The set is closed: whatever consumes a
/// `TwitchEvent` handles each of these variants and no other.
#[derive(Debug, PartialEq, Eq)]
pub enum TwitchEvent {
    ChannelFollow(FollowEvent),
    ChannelSubscribe(SubscribeEvent),
    ChannelResubscribe(SubscribeEvent),
    ChannelRaid(RaidEvent),
    ChannelSubGift(ChannelGiftMessage),
    ChannelCheer(CheerEvent),
}

pub enum TwitchEventView {
    ChannelFollow(FollowEventView),
    ChannelSubscribe(SubscribeEventView),
    ChannelResubscribe(SubscribeEventView),
    ChannelRaid(RaidEventView),
    ChannelSubGift(ChannelGiftMessageView),
    ChannelCheer(CheerEventView),
}

impl View for TwitchEvent {
    type V = TwitchEventView;

    open spec fn view(&self) -> TwitchEventView {
        match *self {
            TwitchEvent::ChannelFollow(e) => TwitchEventView::ChannelFollow(e@),
            TwitchEvent::ChannelSubscribe(e) => TwitchEventView::ChannelSubscribe(e@),
            TwitchEvent::ChannelResubscribe(e) => TwitchEventView::ChannelResubscribe(e@),
            TwitchEvent::ChannelRaid(e) => TwitchEventView::ChannelRaid(e@),
            TwitchEvent::ChannelSubGift(e) => TwitchEventView::ChannelSubGift(e@),
            TwitchEvent::ChannelCheer(e) => TwitchEventView::ChannelCheer(e@),
        }
    }
}

impl Clone for TwitchEvent {
    fn clone(&self) -> (copy: Self)
        ensures
            copy == *self,
    {
        match self {
            TwitchEvent::ChannelFollow(e) => TwitchEvent::ChannelFollow(e.clone()),
            TwitchEvent::ChannelSubscribe(e) => TwitchEvent::ChannelSubscribe(e.clone()),
            TwitchEvent::ChannelResubscribe(e) => TwitchEvent::ChannelResubscribe(e.clone()),
            TwitchEvent::ChannelRaid(e) => TwitchEvent::ChannelRaid(e.clone()),
            TwitchEvent::ChannelSubGift(e) => TwitchEvent::ChannelSubGift(e.clone()),
            TwitchEvent::ChannelCheer(e) => TwitchEvent::ChannelCheer(e.clone()),
        }
    }
}

/// A decoded event with the delivery metadata of the notification that
/// carried it.
#[derive(Debug, PartialEq, Eq)]
pub struct NewTwitchEventMessage {
    pub event: TwitchEvent,
    pub message_id: String,
    pub message_at: String,
}

pub struct NewTwitchEventMessageView {
    pub event: TwitchEventView,
    pub message_id: Seq<char>,
    pub message_at: Seq<char>,
}

impl View for NewTwitchEventMessage {
    type V = NewTwitchEventMessageView;

    open spec fn view(&self) -> NewTwitchEventMessageView {
        NewTwitchEventMessageView {
            event: self.event@,
            message_id: self.message_id@,
            message_at: self.message_at@,
        }
    }
}

/// An activity reported by the video platform.
#[derive(Debug, PartialEq, Eq)]
pub enum YoutubeEvent {
    Subscribe(String),
}

/// A video-platform event with its delivery metadata.
#[derive(Debug, PartialEq, Eq)]
pub struct YoutubeEventMessage {
    pub event: YoutubeEvent,
    pub message_id: String,
    pub message_at: String,
}

/// A message from either event source.
#[derive(Debug, PartialEq, Eq)]
pub enum EventMessage {
    /// A new event message from the streaming platform.
    TwitchEvent(NewTwitchEventMessage),
    /// A new event message from the video platform.
    YoutubeEvent(YoutubeEventMessage),
}

/// An event ready for display: the narrated text, the media that goes with
/// it, and how long it stays on screen, in milliseconds.
#[derive(Debug, PartialEq, Eq)]
pub struct DisplayMessage {
    pub message: String,
    pub image_url: String,
    pub sound_url: String,
    pub display_time: usize,
    pub payload: TwitchEvent,
}

pub struct DisplayMessageView {
    pub message: Seq<char>,
    pub image_url: Seq<char>,
    pub sound_url: Seq<char>,
    pub display_time: usize,
    pub payload: TwitchEventView,
}

impl View for DisplayMessage {
    type V = DisplayMessageView;

    open spec fn view(&self) -> DisplayMessageView {
        DisplayMessageView {
            message: self.message@,
            image_url: self.image_url@,
            sound_url: self.sound_url@,
            display_time: self.display_time,
            payload: self.payload@,
        }
    }
}

impl Clone for DisplayMessage {
    fn clone(&self) -> (copy: Self)
        ensures
            copy == *self,
    {
        DisplayMessage {
            message: self.message.clone(),
            image_url: self.image_url.clone(),
            sound_url: self.sound_url.clone(),
            display_time: self.display_time,
            payload: self.payload.clone(),
        }
    }
}

/// A story with the icon that goes with it.
#[derive(Debug, PartialEq, Eq)]
pub struct AIEvent {
    pub story_segment: String,
    pub icon_uri: String,
}

/// A story about a channel event, by the kind of the event.
#[derive(Debug, PartialEq, Eq)]
pub enum DisplayEvent {
    ChannelFollow(AIEvent),
    ChannelSubscribe(AIEvent),
}

/// A story that is new and waits for display.
#[derive(Debug, PartialEq, Eq)]
pub struct NewDisplayEvent {
    pub event: DisplayEvent,
}

/// A message as the overlay's own script takes it: the text, how long it
/// stays, in milliseconds, and the media that go with it.
#[allow(non_snake_case)]
#[derive(Debug, PartialEq, Eq)]
pub struct WebsocketMessage {
    pub message: String,
    pub length: i32,
    pub soundUrl: String,
    pub imageUrl: String,
}

} // verus!
