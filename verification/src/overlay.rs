//! What the overlay and the administrative pages say of an event and of the
//! hub. Markup is the caller's business; the words are decided here.

use crate::messages::TwitchEvent;
use crate::queues::Queues;
use vstd::prelude::*;

verus! {

/// What the page of the overlay needs to find the hub.
#[derive(Debug, PartialEq, Eq)]
pub struct IndexTemplate {
    pub hostname: String,
    pub port: u16,
}

/// What the administrative page shows: where the hub is, and whether its
/// fan-out is running.
#[derive(Debug, PartialEq, Eq)]
pub struct AdminTemplate {
    pub enabled: bool,
    pub hostname: String,
    pub port: u16,
}

impl AdminTemplate {
    /// The administrative page for the hub at `hostname` and `port`, as
    /// the store stands.
    pub fn new(queues: &Queues, hostname: String, port: u16) -> (page: AdminTemplate)
        ensures
            page.enabled == queues@.active,
            page.hostname == hostname,
            page.port == port,
    {
        AdminTemplate { enabled: queues.is_active(), hostname, port }
    }
}

/// The word under which a list of pending events is styled.
pub fn queue_class(active: bool) -> (class: &'static str)
    ensures
        class@ == if active {
            "running"@
        } else {
            "paused"@
        },
{
    if active {
        "running"
    } else {
        "paused"
    }
}

/// The headline of each kind of event.
pub open spec fn spec_headline(event: TwitchEvent) -> Seq<char> {
    match event {
        TwitchEvent::ChannelFollow(_) => "Followed"@,
        TwitchEvent::ChannelSubscribe(_) => "Subscribed"@,
        TwitchEvent::ChannelResubscribe(_) => "Resubscribed"@,
        TwitchEvent::ChannelRaid(_) => "Raided"@,
        TwitchEvent::ChannelSubGift(_) => "Gifted Sub!"@,
        TwitchEvent::ChannelCheer(_) => "Cheered!"@,
    }
}

/// The headline under which `event` is shown.
pub fn headline(event: &TwitchEvent) -> (text: &'static str)
    ensures
        text@ == spec_headline(*event),
{
    match event {
        TwitchEvent::ChannelFollow(_) => "Followed",
        TwitchEvent::ChannelSubscribe(_) => "Subscribed",
        TwitchEvent::ChannelResubscribe(_) => "Resubscribed",
        TwitchEvent::ChannelRaid(_) => "Raided",
        TwitchEvent::ChannelSubGift(_) => "Gifted Sub!",
        TwitchEvent::ChannelCheer(_) => "Cheered!",
    }
}

/// The style class of each kind of event.
pub open spec fn spec_event_class(event: TwitchEvent) -> Seq<char> {
    match event {
        TwitchEvent::ChannelFollow(_) => "follow"@,
        TwitchEvent::ChannelSubscribe(_) => "subscribe"@,
        TwitchEvent::ChannelResubscribe(_) => "resubscribe"@,
        TwitchEvent::ChannelRaid(_) => "raid"@,
        TwitchEvent::ChannelSubGift(_) => "subgift"@,
        TwitchEvent::ChannelCheer(_) => "cheer"@,
    }
}

/// The style class under which `event` is shown.
pub fn event_class(event: &TwitchEvent) -> (class: &'static str)
    ensures
        class@ == spec_event_class(*event),
{
    match event {
        TwitchEvent::ChannelFollow(_) => "follow",
        TwitchEvent::ChannelSubscribe(_) => "subscribe",
        TwitchEvent::ChannelResubscribe(_) => "resubscribe",
        TwitchEvent::ChannelRaid(_) => "raid",
        TwitchEvent::ChannelSubGift(_) => "subgift",
        TwitchEvent::ChannelCheer(_) => "cheer",
    }
}

/// Who an event is credited to: the viewer who acted, the broadcaster who
/// raided, and `Anonymous` for a gift without a gifter's name.
pub open spec fn spec_actor(event: TwitchEvent) -> Seq<char> {
    match event {
        TwitchEvent::ChannelFollow(follow) => follow.user_name@,
        TwitchEvent::ChannelSubscribe(sub) => sub.user_name@,
        TwitchEvent::ChannelResubscribe(sub) => sub.user_name@,
        TwitchEvent::ChannelRaid(raid) => raid.from_broadcaster_user_name@,
        TwitchEvent::ChannelSubGift(gift) => match gift.user_name {
            Some(name) => name@,
            None => "Anonymous"@,
        },
        TwitchEvent::ChannelCheer(cheer) => cheer.user_name@,
    }
}

/// The name that is shown with `event`.
pub fn actor(event: &TwitchEvent) -> (name: &str)
    ensures
        name@ == spec_actor(*event),
{
    match event {
        TwitchEvent::ChannelFollow(follow) => follow.user_name.as_str(),
        TwitchEvent::ChannelSubscribe(sub) => sub.user_name.as_str(),
        TwitchEvent::ChannelResubscribe(sub) => sub.user_name.as_str(),
        TwitchEvent::ChannelRaid(raid) => raid.from_broadcaster_user_name.as_str(),
        TwitchEvent::ChannelSubGift(gift) => match &gift.user_name {
            Some(name) => name.as_str(),
            None => "Anonymous",
        },
        TwitchEvent::ChannelCheer(cheer) => cheer.user_name.as_str(),
    }
}

} // verus!
