//! From wire notifications to channel events.
//!
//! The feed's set of notification shapes is open and grows with the
//! platform; the set of channel events is closed. Decoding is the one place
//! where the two meet: a shape that maps to an event is copied field by
//! field, and any other is refused by name.

use crate::messages::{
    braid_optional_to_string_optional, opt_chars, ChannelGiftMessage, ChannelGiftMessageView,
    CheerEvent, CheerEventView, FollowEvent, FollowEventView, NullSubTier, NullSubTierView,
    RaidEvent, RaidEventView, SubscribeEvent, SubscribeEventView, TwitchEvent, TwitchEventView,
};
use crate::numeric::{parse_i64, spec_parse_i64};
use crate::wire::{
    EventTag, WireCheer, WireEvent, WireFollow, WireGift, WireRaid, WireResubscribe,
    WireSubscribe, WireTier,
};
use vstd::prelude::*;

verus! {

/// A wire field that has to hold a value of a given form.
#[derive(Clone, Copy, Debug, PartialEq, Eq, Structural)]
pub enum WireField {
    UserId,
    UserName,
    BroadcasterUserId,
}

/// Why a notification was not decoded.
#[derive(Debug, PartialEq, Eq)]
pub enum DecodeError {
    /// The notification is of a kind that is no channel event.
    UnsupportedEventKind(EventTag),
    /// The named field is missing, or is not the decimal text of an integer
    /// where one is required.
    FieldParseError(WireField),
}

/// The tier with its label, for a tier as it stands on the wire.
pub open spec fn spec_tier(tier: WireTier) -> NullSubTierView {
    match tier {
        WireTier::Tier1 => NullSubTierView::Tier1("rare"@),
        WireTier::Tier2 => NullSubTierView::Tier2("epic"@),
        WireTier::Tier3 => NullSubTierView::Tier3("legendary"@),
        WireTier::Prime => NullSubTierView::Prime("prime"@),
        WireTier::Other(name) => NullSubTierView::Other(name@),
    }
}

/// Gives each tier its label; a tier that has no label of its own keeps
/// the name that the feed gave it.
pub fn twitch_teir_to_teir(tier: &WireTier) -> (labelled: NullSubTier)
    ensures
        labelled@ == spec_tier(*tier),
{
    match tier {
        WireTier::Tier1 => NullSubTier::Tier1("rare".to_owned()),
        WireTier::Tier2 => NullSubTier::Tier2("epic".to_owned()),
        WireTier::Tier3 => NullSubTier::Tier3("legendary".to_owned()),
        WireTier::Prime => NullSubTier::Prime("prime".to_owned()),
        WireTier::Other(name) => NullSubTier::Other(name.clone()),
    }
}

/// The event that a follow notification decodes to.
pub open spec fn spec_follow(wire: WireFollow) -> Result<TwitchEventView, DecodeError> {
    match spec_parse_i64(wire.user_id@) {
        None => Err(DecodeError::FieldParseError(WireField::UserId)),
        Some(user_id) => Ok(
            TwitchEventView::ChannelFollow(
                FollowEventView { user_name: wire.user_name@, user_id },
            ),
        ),
    }
}

/// The event that a subscribe notification decodes to. The feed says
/// nothing of months or of a message here, so the event counts one month
/// and carries an empty message.
pub open spec fn spec_subscribe(wire: WireSubscribe) -> Result<TwitchEventView, DecodeError> {
    match (spec_parse_i64(wire.user_id@), spec_parse_i64(wire.broadcaster_user_id@)) {
        (None, _) => Err(DecodeError::FieldParseError(WireField::UserId)),
        (Some(_), None) => Err(DecodeError::FieldParseError(WireField::BroadcasterUserId)),
        (Some(user_id), Some(broadcaster_user_id)) => Ok(
            TwitchEventView::ChannelSubscribe(
                SubscribeEventView {
                    broadcaster_user_id,
                    broadcaster_user_name: wire.broadcaster_user_name@,
                    user_name: wire.user_name@,
                    user_id,
                    is_gift: wire.is_gift,
                    tier: spec_tier(wire.tier),
                    cumulative_months: 1,
                    duration_months: 1,
                    message: Seq::empty(),
                    streak_months: Some(1),
                },
            ),
        ),
    }
}

/// The event that a subscription-message notification decodes to.
pub open spec fn spec_resubscribe(wire: WireResubscribe) -> Result<TwitchEventView, DecodeError> {
    match (spec_parse_i64(wire.user_id@), spec_parse_i64(wire.broadcaster_user_id@)) {
        (None, _) => Err(DecodeError::FieldParseError(WireField::UserId)),
        (Some(_), None) => Err(DecodeError::FieldParseError(WireField::BroadcasterUserId)),
        (Some(user_id), Some(broadcaster_user_id)) => Ok(
            TwitchEventView::ChannelResubscribe(
                SubscribeEventView {
                    broadcaster_user_id,
                    broadcaster_user_name: wire.broadcaster_user_name@,
                    user_name: wire.user_name@,
                    user_id,
                    is_gift: false,
                    tier: spec_tier(wire.tier),
                    cumulative_months: wire.cumulative_months,
                    duration_months: wire.duration_months,
                    message: wire.message@,
                    streak_months: wire.streak_months,
                },
            ),
        ),
    }
}

/// The event that a raid notification decodes to.
pub open spec fn spec_raid(wire: WireRaid) -> TwitchEventView {
    TwitchEventView::ChannelRaid(
        RaidEventView {
            from_broadcaster_user_id: wire.from_broadcaster_user_id@,
            from_broadcaster_user_login: wire.from_broadcaster_user_login@,
            from_broadcaster_user_name: wire.from_broadcaster_user_name@,
            to_broadcaster_user_id: wire.to_broadcaster_user_id@,
            to_broadcaster_user_login: wire.to_broadcaster_user_login@,
            to_broadcaster_user_name: wire.to_broadcaster_user_name@,
            viewers: wire.viewers,
        },
    )
}

/// The event that a subscription-gift notification decodes to.
pub open spec fn spec_gift(wire: WireGift) -> TwitchEventView {
    TwitchEventView::ChannelSubGift(
        ChannelGiftMessageView {
            broadcaster_user_id: wire.broadcaster_user_id@,
            broadcaster_user_login: wire.broadcaster_user_login@,
            broadcaster_user_name: wire.broadcaster_user_name@,
            cumulative_total: wire.cumulative_total,
            is_anonymous: wire.is_anonymous,
            tier: spec_tier(wire.tier),
            total: wire.total,
            user_id: opt_chars(wire.user_id),
            user_login: opt_chars(wire.user_login),
            user_name: opt_chars(wire.user_name),
        },
    )
}

/// The event that a cheer notification decodes to. A cheer names who
/// cheered; one that does not is refused.
pub open spec fn spec_cheer(wire: WireCheer) -> Result<TwitchEventView, DecodeError> {
    match (wire.user_name, wire.user_id) {
        (None, _) => Err(DecodeError::FieldParseError(WireField::UserName)),
        (Some(_), None) => Err(DecodeError::FieldParseError(WireField::UserId)),
        (Some(user_name), Some(id)) => match spec_parse_i64(id@) {
            None => Err(DecodeError::FieldParseError(WireField::UserId)),
            Some(user_id) => Ok(
                TwitchEventView::ChannelCheer(
                    CheerEventView {
                        user_name: user_name@,
                        user_id,
                        bits: wire.bits,
                        message: wire.message@,
                    },
                ),
            ),
        },
    }
}

/// What `new_twitch_event` gives for `payload`: the event of each payload
/// shape that is a channel event, with every field copied and identifiers
/// read as integers; `FieldParseError` where a required field is missing or
/// an identifier is no integer; and `UnsupportedEventKind`, with the
/// payload's own tag, for every other payload.
pub open spec fn spec_new_twitch_event(payload: WireEvent) -> Result<
    TwitchEventView,
    DecodeError,
> {
    match payload {
        WireEvent::Follow(wire) => spec_follow(wire),
        WireEvent::Subscribe(wire) => spec_subscribe(wire),
        WireEvent::Raid(wire) => Ok(spec_raid(wire)),
        WireEvent::SubscriptionGift(wire) => Ok(spec_gift(wire)),
        WireEvent::SubscriptionMessage(wire) => spec_resubscribe(wire),
        WireEvent::Cheer(wire) => spec_cheer(wire),
        WireEvent::Unsupported(tag) => Err(DecodeError::UnsupportedEventKind(tag)),
    }
}

/// The outcome of decoding, with the event replaced by its view.
pub open spec fn decoded(outcome: Result<TwitchEvent, DecodeError>) -> Result<
    TwitchEventView,
    DecodeError,
> {
    match outcome {
        Ok(event) => Ok(event@),
        Err(error) => Err(error),
    }
}

fn follow_event(wire: &WireFollow) -> (outcome: Result<TwitchEvent, DecodeError>)
    ensures
        decoded(outcome) == spec_follow(*wire),
{
    match parse_i64(wire.user_id.as_str()) {
        None => Err(DecodeError::FieldParseError(WireField::UserId)),
        Some(user_id) => Ok(
            TwitchEvent::ChannelFollow(FollowEvent { user_name: wire.user_name.clone(), user_id }),
        ),
    }
}

fn subscribe_event(wire: &WireSubscribe) -> (outcome: Result<TwitchEvent, DecodeError>)
    ensures
        decoded(outcome) == spec_subscribe(*wire),
{
    let user_id: i64 = match parse_i64(wire.user_id.as_str()) {
        None => {
            return Err(DecodeError::FieldParseError(WireField::UserId));
        },
        Some(id) => id,
    };
    let broadcaster_user_id: i64 = match parse_i64(wire.broadcaster_user_id.as_str()) {
        None => {
            return Err(DecodeError::FieldParseError(WireField::BroadcasterUserId));
        },
        Some(id) => id,
    };
    Ok(
        TwitchEvent::ChannelSubscribe(
            SubscribeEvent {
                broadcaster_user_id,
                broadcaster_user_name: wire.broadcaster_user_name.clone(),
                user_name: wire.user_name.clone(),
                user_id,
                is_gift: wire.is_gift,
                tier: twitch_teir_to_teir(&wire.tier),
                cumulative_months: 1,
                duration_months: 1,
                message: String::new(),
                streak_months: Some(1),
            },
        ),
    )
}

fn resubscribe_event(wire: &WireResubscribe) -> (outcome: Result<TwitchEvent, DecodeError>)
    ensures
        decoded(outcome) == spec_resubscribe(*wire),
{
    let user_id: i64 = match parse_i64(wire.user_id.as_str()) {
        None => {
            return Err(DecodeError::FieldParseError(WireField::UserId));
        },
        Some(id) => id,
    };
    let broadcaster_user_id: i64 = match parse_i64(wire.broadcaster_user_id.as_str()) {
        None => {
            return Err(DecodeError::FieldParseError(WireField::BroadcasterUserId));
        },
        Some(id) => id,
    };
    Ok(
        TwitchEvent::ChannelResubscribe(
            SubscribeEvent {
                broadcaster_user_id,
                broadcaster_user_name: wire.broadcaster_user_name.clone(),
                user_name: wire.user_name.clone(),
                user_id,
                is_gift: false,
                tier: twitch_teir_to_teir(&wire.tier),
                cumulative_months: wire.cumulative_months,
                duration_months: wire.duration_months,
                message: wire.message.clone(),
                streak_months: wire.streak_months,
            },
        ),
    )
}

fn raid_event(wire: &WireRaid) -> (event: TwitchEvent)
    ensures
        event@ == spec_raid(*wire),
{
    TwitchEvent::ChannelRaid(
        RaidEvent {
            from_broadcaster_user_id: wire.from_broadcaster_user_id.clone(),
            from_broadcaster_user_login: wire.from_broadcaster_user_login.clone(),
            from_broadcaster_user_name: wire.from_broadcaster_user_name.clone(),
            to_broadcaster_user_id: wire.to_broadcaster_user_id.clone(),
            to_broadcaster_user_login: wire.to_broadcaster_user_login.clone(),
            to_broadcaster_user_name: wire.to_broadcaster_user_name.clone(),
            viewers: wire.viewers,
        },
    )
}

fn gift_event(wire: &WireGift) -> (event: TwitchEvent)
    ensures
        event@ == spec_gift(*wire),
{
    TwitchEvent::ChannelSubGift(
        ChannelGiftMessage {
            broadcaster_user_id: wire.broadcaster_user_id.clone(),
            broadcaster_user_login: wire.broadcaster_user_login.clone(),
            broadcaster_user_name: wire.broadcaster_user_name.clone(),
            cumulative_total: wire.cumulative_total,
            is_anonymous: wire.is_anonymous,
            tier: twitch_teir_to_teir(&wire.tier),
            total: wire.total,
            user_id: braid_optional_to_string_optional(&wire.user_id),
            user_login: braid_optional_to_string_optional(&wire.user_login),
            user_name: braid_optional_to_string_optional(&wire.user_name),
        },
    )
}

fn cheer_event(wire: &WireCheer) -> (outcome: Result<TwitchEvent, DecodeError>)
    ensures
        decoded(outcome) == spec_cheer(*wire),
{
    let user_name: &String = match &wire.user_name {
        None => {
            return Err(DecodeError::FieldParseError(WireField::UserName));
        },
        Some(name) => name,
    };
    let id: &String = match &wire.user_id {
        None => {
            return Err(DecodeError::FieldParseError(WireField::UserId));
        },
        Some(id) => id,
    };
    match parse_i64(id.as_str()) {
        None => Err(DecodeError::FieldParseError(WireField::UserId)),
        Some(user_id) => Ok(
            TwitchEvent::ChannelCheer(
                CheerEvent {
                    user_name: user_name.clone(),
                    user_id,
                    bits: wire.bits,
                    message: wire.message.clone(),
                },
            ),
        ),
    }
}

/// Decodes the payload of a notification into a channel event.
pub fn new_twitch_event(payload: &WireEvent) -> (outcome: Result<TwitchEvent, DecodeError>)
    ensures
        decoded(outcome) == spec_new_twitch_event(*payload),
{
    match payload {
        WireEvent::Follow(wire) => follow_event(wire),
        WireEvent::Subscribe(wire) => subscribe_event(wire),
        WireEvent::Raid(wire) => Ok(raid_event(wire)),
        WireEvent::SubscriptionGift(wire) => Ok(gift_event(wire)),
        WireEvent::SubscriptionMessage(wire) => resubscribe_event(wire),
        WireEvent::Cheer(wire) => cheer_event(wire),
        WireEvent::Unsupported(tag) => Err(DecodeError::UnsupportedEventKind(tag.clone())),
    }
}

/// Decoding succeeds on no payload outside the closed set, and refuses
/// such a payload by the tag that came with it.
pub proof fn lemma_unsupported_is_refused(payload: WireEvent)
    ensures
        payload matches WireEvent::Unsupported(tag) ==> spec_new_twitch_event(payload) == Err::<
            TwitchEventView,
            DecodeError,
        >(DecodeError::UnsupportedEventKind(tag)),
        spec_new_twitch_event(payload) matches Err(DecodeError::UnsupportedEventKind(_))
            ==> payload is Unsupported,
        spec_new_twitch_event(payload) matches Ok(event) ==> {
            &&& payload is Follow <==> event is ChannelFollow
            &&& payload is Subscribe <==> event is ChannelSubscribe
            &&& payload is SubscriptionMessage <==> event is ChannelResubscribe
            &&& payload is Raid <==> event is ChannelRaid
            &&& payload is SubscriptionGift <==> event is ChannelSubGift
            &&& payload is Cheer <==> event is ChannelCheer
        },
{
}

} // verus!
