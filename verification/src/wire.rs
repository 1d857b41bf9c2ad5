//! The wire side of the event feed.
//!
//! Frames arrive as JSON text. `twitch_api` parses them; this module moves
//! what the rest of the crate reads out of the parsed value into plain
//! types of its own. The parsed value itself is opaque to the verifier, so
//! the functions that look inside it are trusted, and each of them does no
//! more than tell variants apart and move fields. What they give for a
//! text has a name, `parsed_parts`; which frame the parts make up is
//! decided in verified code, and stated over that name.

use twitch_api::eventsub::event::websocket::{
    EventsubWebsocketData, ReconnectPayload, WelcomePayload,
};
use twitch_api::eventsub::{Event, Message, Payload, PayloadParseError};
use twitch_api::types::SubscriptionTier;
use vstd::prelude::*;

verus! {

/// A parsed frame of the event feed, as `twitch_api` represents it.
#[verifier::external_type_specification]
#[verifier::external_body]
pub struct ExEventsubWebsocketData<'a>(EventsubWebsocketData<'a>);

/// The payload of a notification, as `twitch_api` represents it.
#[verifier::external_type_specification]
#[verifier::external_body]
pub struct ExEvent(Event);

/// The reason for which `twitch_api` rejected a frame.
#[verifier::external_type_specification]
#[verifier::external_body]
pub struct ExPayloadParseError(PayloadParseError);

/// A subscription tier, as `twitch_api` represents it.
#[verifier::external_type_specification]
#[verifier::external_body]
pub struct ExSubscriptionTier(SubscriptionTier);

/// The kind of a notification and the version of its payload shape, as the
/// feed names them.
#[derive(Debug, PartialEq, Eq)]
pub struct EventTag {
    pub kind: String,
    pub version: String,
}

impl Clone for EventTag {
    fn clone(&self) -> (copy: Self)
        ensures
            copy == *self,
    {
        EventTag { kind: self.kind.clone(), version: self.version.clone() }
    }
}

/// Subscription tier as it stands on the wire.
#[derive(Debug, PartialEq, Eq)]
pub enum WireTier {
    Tier1,
    Tier2,
    Tier3,
    Prime,
    Other(String),
}

/// Payload of a follow notification.
#[derive(Debug, PartialEq, Eq)]
pub struct WireFollow {
    pub user_name: String,
    pub user_id: String,
}

/// Payload of a subscribe notification.
#[derive(Debug, PartialEq, Eq)]
pub struct WireSubscribe {
    pub user_name: String,
    pub user_id: String,
    pub broadcaster_user_id: String,
    pub broadcaster_user_name: String,
    pub is_gift: bool,
    pub tier: WireTier,
}

/// Payload of a raid notification.
#[derive(Debug, PartialEq, Eq)]
pub struct WireRaid {
    pub from_broadcaster_user_id: String,
    pub from_broadcaster_user_login: String,
    pub from_broadcaster_user_name: String,
    pub to_broadcaster_user_id: String,
    pub to_broadcaster_user_login: String,
    pub to_broadcaster_user_name: String,
    pub viewers: i64,
}

/// Payload of a subscription-gift notification.
#[derive(Debug, PartialEq, Eq)]
pub struct WireGift {
    pub broadcaster_user_id: String,
    pub broadcaster_user_login: String,
    pub broadcaster_user_name: String,
    pub cumulative_total: Option<i64>,
    pub is_anonymous: bool,
    pub tier: WireTier,
    pub total: i64,
    pub user_id: Option<String>,
    pub user_login: Option<String>,
    pub user_name: Option<String>,
}

/// Payload of a subscription-message notification.
#[derive(Debug, PartialEq, Eq)]
pub struct WireResubscribe {
    pub user_name: String,
    pub user_id: String,
    pub broadcaster_user_id: String,
    pub broadcaster_user_name: String,
    pub tier: WireTier,
    pub cumulative_months: i64,
    pub duration_months: i64,
    pub message: String,
    pub streak_months: Option<i64>,
}

/// Payload of a cheer notification.
#[derive(Debug, PartialEq, Eq)]
pub struct WireCheer {
    pub user_name: Option<String>,
    pub user_id: Option<String>,
    pub bits: i64,
    pub message: String,
}

/// The payload of a notification: one of the shapes that the decoder maps
/// to a channel event, or the tag alone of a shape that it does not.
#[derive(Debug, PartialEq, Eq)]
pub enum WireEvent {
    Follow(WireFollow),
    Subscribe(WireSubscribe),
    Raid(WireRaid),
    SubscriptionGift(WireGift),
    SubscriptionMessage(WireResubscribe),
    Cheer(WireCheer),
    Unsupported(EventTag),
}

/// A notification frame: delivery metadata and payload.
#[derive(Debug, PartialEq, Eq)]
pub struct WireNotification {
    pub message_id: String,
    pub message_at: String,
    pub event: WireEvent,
}

/// The session that a handshake frame announces.
#[derive(Debug, PartialEq, Eq)]
pub struct ConnectSession {
    pub id: String,
    pub reconnect_url: Option<String>,
}

/// One frame of the event feed.
#[derive(Debug, PartialEq, Eq)]
pub enum Frame {
    Welcome(ConnectSession),
    Reconnect(ConnectSession),
    Notification(WireNotification),
    Revocation,
    Keepalive,
}

/// Why a text is not a frame that the client can act on.
#[derive(Debug, PartialEq, Eq)]
pub enum FrameError {
    /// The text is not a well-formed frame.
    Malformed,
    /// The frame is well formed, but no payload shape is known for its
    /// kind and version.
    UnknownShape(EventTag),
}

/// Delivery metadata of a notification, with the tag of its payload.
#[derive(Debug, PartialEq, Eq)]
pub struct WireMetadata {
    pub message_id: String,
    pub message_at: String,
    pub tag: EventTag,
}

/// Which of the five frame kinds a parsed frame is.
#[derive(Clone, Copy, Debug, PartialEq, Eq, Structural)]
pub enum FrameKind {
    Welcome,
    Reconnect,
    Notification,
    Revocation,
    Keepalive,
    Unknown,
}

/// Tells the variants of `PayloadParseError` apart: an unimplemented pair
/// of kind and version keeps both, every other error is a malformed frame.
#[verifier::external_body]
fn frame_error(error: &PayloadParseError) -> (e: FrameError) {
    match error {
        PayloadParseError::UnimplementedEvent { version, event_type } => FrameError::UnknownShape(
            EventTag { kind: event_type.to_str().to_string(), version: version.clone() },
        ),
        _ => FrameError::Malformed,
    }
}

/// Tells the variants of `EventsubWebsocketData` apart.
#[verifier::external_body]
fn frame_kind(data: &EventsubWebsocketData<'_>) -> (kind: FrameKind) {
    match data {
        EventsubWebsocketData::Welcome { .. } => FrameKind::Welcome,
        EventsubWebsocketData::Reconnect { .. } => FrameKind::Reconnect,
        EventsubWebsocketData::Notification { .. } => FrameKind::Notification,
        EventsubWebsocketData::Revocation { .. } => FrameKind::Revocation,
        EventsubWebsocketData::Keepalive { .. } => FrameKind::Keepalive,
        _ => FrameKind::Unknown,
    }
}

/// The session of a welcome or reconnect frame of `twitch_api`; `None` for
/// any other frame.
#[verifier::external_body]
fn frame_session(data: &EventsubWebsocketData<'_>) -> (session: Option<ConnectSession>) {
    match data {
        EventsubWebsocketData::Welcome { payload: WelcomePayload { session }, .. }
        | EventsubWebsocketData::Reconnect { payload: ReconnectPayload { session }, .. } => Some(
            ConnectSession {
                id: session.id.to_string(),
                reconnect_url: session.reconnect_url.as_ref().map(|url| url.to_string()),
            },
        ),
        _ => None,
    }
}

/// The metadata of a notification frame of `twitch_api`; `None` for any
/// other frame.
#[verifier::external_body]
fn frame_metadata(data: &EventsubWebsocketData<'_>) -> (metadata: Option<WireMetadata>) {
    match data {
        EventsubWebsocketData::Notification { metadata, .. } => Some(
            WireMetadata {
                message_id: metadata.message_id.to_string(),
                message_at: metadata.message_timestamp.as_str().to_string(),
                tag: EventTag {
                    kind: metadata.subscription_type.to_str().to_string(),
                    version: metadata.subscription_version.to_string(),
                },
            },
        ),
        _ => None,
    }
}

/// The payload of a notification frame of `twitch_api`; `None` for any
/// other frame.
#[verifier::external_body]
fn frame_event<'a>(data: &'a EventsubWebsocketData<'_>) -> (event: Option<&'a Event>) {
    match data {
        EventsubWebsocketData::Notification { payload, .. } => Some(payload),
        _ => None,
    }
}

/// Tells the variants of `SubscriptionTier` apart.
#[verifier::external_body]
fn wire_tier(tier: &SubscriptionTier) -> (wire: WireTier) {
    match tier {
        SubscriptionTier::Tier1 => WireTier::Tier1,
        SubscriptionTier::Tier2 => WireTier::Tier2,
        SubscriptionTier::Tier3 => WireTier::Tier3,
        SubscriptionTier::Prime => WireTier::Prime,
        SubscriptionTier::Other(name) => WireTier::Other(name.clone()),
    }
}

/// The fields of `ChannelFollowV2Payload`; `None` for any other payload.
#[verifier::external_body]
fn follow_payload(event: &Event) -> (wire: Option<WireFollow>) {
    match event {
        Event::ChannelFollowV2(Payload { message: Message::Notification(p), .. }) => Some(
            WireFollow { user_name: p.user_name.to_string(), user_id: p.user_id.to_string() },
        ),
        _ => None,
    }
}

/// The fields of `ChannelSubscribeV1Payload`; `None` for any other payload.
#[verifier::external_body]
fn subscribe_payload(event: &Event) -> (wire: Option<WireSubscribe>) {
    match event {
        Event::ChannelSubscribeV1(Payload { message: Message::Notification(p), .. }) => Some(
            WireSubscribe {
                user_name: p.user_name.to_string(),
                user_id: p.user_id.to_string(),
                broadcaster_user_id: p.broadcaster_user_id.to_string(),
                broadcaster_user_name: p.broadcaster_user_name.to_string(),
                is_gift: p.is_gift,
                tier: wire_tier(&p.tier),
            },
        ),
        _ => None,
    }
}

/// The fields of `ChannelRaidV1Payload`; `None` for any other payload.
#[verifier::external_body]
fn raid_payload(event: &Event) -> (wire: Option<WireRaid>) {
    match event {
        Event::ChannelRaidV1(Payload { message: Message::Notification(p), .. }) => Some(
            WireRaid {
                from_broadcaster_user_id: p.from_broadcaster_user_id.to_string(),
                from_broadcaster_user_login: p.from_broadcaster_user_login.to_string(),
                from_broadcaster_user_name: p.from_broadcaster_user_name.to_string(),
                to_broadcaster_user_id: p.to_broadcaster_user_id.to_string(),
                to_broadcaster_user_login: p.to_broadcaster_user_login.to_string(),
                to_broadcaster_user_name: p.to_broadcaster_user_name.to_string(),
                viewers: p.viewers,
            },
        ),
        _ => None,
    }
}

/// The fields of `ChannelSubscriptionGiftV1Payload`; `None` for any other
/// payload.
#[verifier::external_body]
fn gift_payload(event: &Event) -> (wire: Option<WireGift>) {
    match event {
        Event::ChannelSubscriptionGiftV1(Payload { message: Message::Notification(p), .. }) => Some(WireGift {
            broadcaster_user_id: p.broadcaster_user_id.to_string(),
            broadcaster_user_login: p.broadcaster_user_login.to_string(),
            broadcaster_user_name: p.broadcaster_user_name.to_string(),
            cumulative_total: p.cumulative_total,
            is_anonymous: p.is_anonymous,
            tier: wire_tier(&p.tier),
            total: p.total,
            user_id: p.user_id.as_ref().map(|id| id.to_string()),
            user_login: p.user_login.as_ref().map(|login| login.to_string()),
            user_name: p.user_name.as_ref().map(|name| name.to_string()),
        }),
        _ => None,
    }
}

/// The fields of `ChannelSubscriptionMessageV1Payload`; `None` for any
/// other payload.
#[verifier::external_body]
fn resubscribe_payload(event: &Event) -> (wire: Option<WireResubscribe>) {
    match event {
        Event::ChannelSubscriptionMessageV1(Payload { message: Message::Notification(p), .. }) => Some(WireResubscribe {
            user_name: p.user_name.to_string(),
            user_id: p.user_id.to_string(),
            broadcaster_user_id: p.broadcaster_user_id.to_string(),
            broadcaster_user_name: p.broadcaster_user_name.to_string(),
            tier: wire_tier(&p.tier),
            cumulative_months: p.cumulative_months,
            duration_months: p.duration_months,
            message: p.message.text.clone(),
            streak_months: p.streak_months,
        }),
        _ => None,
    }
}

/// The fields of `ChannelCheerV1Payload`; `None` for any other payload.
#[verifier::external_body]
fn cheer_payload(event: &Event) -> (wire: Option<WireCheer>) {
    match event {
        Event::ChannelCheerV1(Payload { message: Message::Notification(p), .. }) => Some(
            WireCheer {
                user_name: p.user_name.as_ref().map(|name| name.to_string()),
                user_id: p.user_id.as_ref().map(|id| id.to_string()),
                bits: p.bits,
                message: p.message.clone(),
            },
        ),
        _ => None,
    }
}

/// What `twitch_api` reads in a text frame, in plain values: the kind of
/// the frame, the session of a handshake, the metadata of a notification,
/// and the fields of its payload under each shape that it fits.
#[derive(Debug, PartialEq, Eq)]
pub struct FrameParts {
    pub kind: FrameKind,
    pub session: Option<ConnectSession>,
    pub metadata: Option<WireMetadata>,
    pub follow: Option<WireFollow>,
    pub subscribe: Option<WireSubscribe>,
    pub raid: Option<WireRaid>,
    pub gift: Option<WireGift>,
    pub resubscribe: Option<WireResubscribe>,
    pub cheer: Option<WireCheer>,
}

/// What `Event::parse_websocket` of `twitch_api` makes of `text`, moved
/// into plain values: the parts of the frame that it reads, or the reason
/// for which it reads none.
pub uninterp spec fn parsed_parts(text: Seq<char>) -> Result<FrameParts, FrameError>;

/// Parses `text` with `Event::parse_websocket` of `twitch_api` and moves
/// what it read into plain values. The parser depends on its text alone, so
/// its answer has a name; nothing else is claimed of it.
#[verifier::external_body]
fn parse_parts(text: &str) -> (parts: Result<FrameParts, FrameError>)
    ensures
        parts == parsed_parts(text@),
{
    let data = Event::parse_websocket(text).map_err(|error| frame_error(&error))?;
    let event = frame_event(&data);
    Ok(FrameParts {
        kind: frame_kind(&data),
        session: frame_session(&data),
        metadata: frame_metadata(&data),
        follow: event.and_then(follow_payload),
        subscribe: event.and_then(subscribe_payload),
        raid: event.and_then(raid_payload),
        gift: event.and_then(gift_payload),
        resubscribe: event.and_then(resubscribe_payload),
        cheer: event.and_then(cheer_payload),
    })
}

/// The payload of a notification: where the frame has the metadata of
/// one, the shape that `spec_select_event` chooses, under the metadata's
/// tag; no payload where it has none.
pub open spec fn spec_wire_event(
    metadata: Option<WireMetadata>,
    follow: Option<WireFollow>,
    subscribe: Option<WireSubscribe>,
    raid: Option<WireRaid>,
    gift: Option<WireGift>,
    resubscribe: Option<WireResubscribe>,
    cheer: Option<WireCheer>,
) -> Option<WireEvent> {
    match metadata {
        Some(metadata) => Some(
            spec_select_event(follow, subscribe, raid, gift, resubscribe, cheer, metadata.tag),
        ),
        None => None,
    }
}

/// The payload of a notification in this crate's own terms: the first
/// shape that matches, and the bare tag where none does.
fn wire_event(
    metadata: &Option<WireMetadata>,
    follow: Option<WireFollow>,
    subscribe: Option<WireSubscribe>,
    raid: Option<WireRaid>,
    gift: Option<WireGift>,
    resubscribe: Option<WireResubscribe>,
    cheer: Option<WireCheer>,
) -> (wire: Option<WireEvent>)
    ensures
        wire == spec_wire_event(*metadata, follow, subscribe, raid, gift, resubscribe, cheer),
{
    match metadata {
        Some(metadata) => Some(
            select_event(follow, subscribe, raid, gift, resubscribe, cheer, metadata.tag.clone()),
        ),
        None => None,
    }
}

/// The frame that `text` holds: the parts that the parser reads in it,
/// put together as `spec_assemble_frame` says, with the payload that
/// `spec_wire_event` chooses; the parser's own refusal where it reads none.
pub open spec fn spec_read_frame(text: Seq<char>) -> Result<Frame, FrameError> {
    match parsed_parts(text) {
        Err(error) => Err(error),
        Ok(parts) => spec_assemble_frame(
            parts.kind,
            parts.session,
            parts.metadata,
            spec_wire_event(
                parts.metadata,
                parts.follow,
                parts.subscribe,
                parts.raid,
                parts.gift,
                parts.resubscribe,
                parts.cheer,
            ),
        ),
    }
}

/// Parses one text frame of the event feed.
pub fn read_frame(text: &str) -> (frame: Result<Frame, FrameError>)
    ensures
        frame == spec_read_frame(text@),
{
    match parse_parts(text) {
        Err(error) => Err(error),
        Ok(parts) => {
            let FrameParts {
                kind,
                session,
                metadata,
                follow,
                subscribe,
                raid,
                gift,
                resubscribe,
                cheer,
            } = parts;
            let event = wire_event(&metadata, follow, subscribe, raid, gift, resubscribe, cheer);
            assemble_frame(kind, session, metadata, event)
        },
    }
}

/// The payload that is chosen among the shapes that matched: they are
/// tried in a fixed order and the first one that is there wins; where none
/// is, the payload is unsupported and keeps its tag.
pub open spec fn spec_select_event(
    follow: Option<WireFollow>,
    subscribe: Option<WireSubscribe>,
    raid: Option<WireRaid>,
    gift: Option<WireGift>,
    resubscribe: Option<WireResubscribe>,
    cheer: Option<WireCheer>,
    tag: EventTag,
) -> WireEvent {
    match (follow, subscribe, raid, gift, resubscribe, cheer) {
        (Some(wire), _, _, _, _, _) => WireEvent::Follow(wire),
        (None, Some(wire), _, _, _, _) => WireEvent::Subscribe(wire),
        (None, None, Some(wire), _, _, _) => WireEvent::Raid(wire),
        (None, None, None, Some(wire), _, _) => WireEvent::SubscriptionGift(wire),
        (None, None, None, None, Some(wire), _) => WireEvent::SubscriptionMessage(wire),
        (None, None, None, None, None, Some(wire)) => WireEvent::Cheer(wire),
        (None, None, None, None, None, None) => WireEvent::Unsupported(tag),
    }
}

/// Chooses the payload of a notification among the shapes that matched.
pub fn select_event(
    follow: Option<WireFollow>,
    subscribe: Option<WireSubscribe>,
    raid: Option<WireRaid>,
    gift: Option<WireGift>,
    resubscribe: Option<WireResubscribe>,
    cheer: Option<WireCheer>,
    tag: EventTag,
) -> (wire: WireEvent)
    ensures
        wire == spec_select_event(follow, subscribe, raid, gift, resubscribe, cheer, tag),
{
    if let Some(wire) = follow {
        return WireEvent::Follow(wire);
    }
    if let Some(wire) = subscribe {
        return WireEvent::Subscribe(wire);
    }
    if let Some(wire) = raid {
        return WireEvent::Raid(wire);
    }
    if let Some(wire) = gift {
        return WireEvent::SubscriptionGift(wire);
    }
    if let Some(wire) = resubscribe {
        return WireEvent::SubscriptionMessage(wire);
    }
    if let Some(wire) = cheer {
        return WireEvent::Cheer(wire);
    }
    WireEvent::Unsupported(tag)
}

/// The frame that the parts of a parsed frame make up. A handshake needs
/// its session, a notification its metadata and its payload; a frame that
/// lacks what its kind needs, or is of no known kind, is malformed.
pub open spec fn spec_assemble_frame(
    kind: FrameKind,
    session: Option<ConnectSession>,
    metadata: Option<WireMetadata>,
    event: Option<WireEvent>,
) -> Result<Frame, FrameError> {
    match kind {
        FrameKind::Welcome => match session {
            Some(session) => Ok(Frame::Welcome(session)),
            None => Err(FrameError::Malformed),
        },
        FrameKind::Reconnect => match session {
            Some(session) => Ok(Frame::Reconnect(session)),
            None => Err(FrameError::Malformed),
        },
        FrameKind::Notification => match (metadata, event) {
            (Some(metadata), Some(event)) => Ok(
                Frame::Notification(
                    WireNotification {
                        message_id: metadata.message_id,
                        message_at: metadata.message_at,
                        event,
                    },
                ),
            ),
            _ => Err(FrameError::Malformed),
        },
        FrameKind::Revocation => Ok(Frame::Revocation),
        FrameKind::Keepalive => Ok(Frame::Keepalive),
        FrameKind::Unknown => Err(FrameError::Malformed),
    }
}

/// Puts a frame together from its parts.
pub fn assemble_frame(
    kind: FrameKind,
    session: Option<ConnectSession>,
    metadata: Option<WireMetadata>,
    event: Option<WireEvent>,
) -> (frame: Result<Frame, FrameError>)
    ensures
        frame == spec_assemble_frame(kind, session, metadata, event),
{
    match kind {
        FrameKind::Welcome => match session {
            Some(session) => Ok(Frame::Welcome(session)),
            None => Err(FrameError::Malformed),
        },
        FrameKind::Reconnect => match session {
            Some(session) => Ok(Frame::Reconnect(session)),
            None => Err(FrameError::Malformed),
        },
        FrameKind::Notification => match (metadata, event) {
            (Some(metadata), Some(event)) => Ok(
                Frame::Notification(
                    WireNotification {
                        message_id: metadata.message_id,
                        message_at: metadata.message_at,
                        event,
                    },
                ),
            ),
            _ => Err(FrameError::Malformed),
        },
        FrameKind::Revocation => Ok(Frame::Revocation),
        FrameKind::Keepalive => Ok(Frame::Keepalive),
        FrameKind::Unknown => Err(FrameError::Malformed),
    }
}

} // verus!
