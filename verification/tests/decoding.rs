use twitch_alerts::decoder::{new_twitch_event, twitch_teir_to_teir, DecodeError, WireField};
use twitch_alerts::messages::{
    braid_optional_to_string_optional, ChannelGiftMessage, CheerEvent, FollowEvent, NullSubTier,
    RaidEvent, SubscribeEvent, TwitchEvent,
};
use twitch_alerts::wire::{
    EventTag, WireCheer, WireEvent, WireFollow, WireGift, WireRaid, WireResubscribe,
    WireSubscribe, WireTier,
};

fn s(text: &str) -> String {
    text.to_string()
}

#[test]
fn follow_is_copied_with_its_id_as_a_number() {
    let wire = WireEvent::Follow(WireFollow { user_name: s("Awesome_User"), user_id: s("1337") });
    assert_eq!(
        new_twitch_event(&wire),
        Ok(TwitchEvent::ChannelFollow(FollowEvent { user_name: s("Awesome_User"), user_id: 1337 }))
    );
}

#[test]
fn follow_with_an_id_that_is_no_number_is_refused() {
    for bad in ["", "12a", " 12", "1_000", "9223372036854775808"] {
        let wire = WireEvent::Follow(WireFollow { user_name: s("u"), user_id: s(bad) });
        assert_eq!(new_twitch_event(&wire), Err(DecodeError::FieldParseError(WireField::UserId)));
    }
}

#[test]
fn subscribe_counts_one_month_and_has_no_message() {
    let wire = WireEvent::Subscribe(WireSubscribe {
        user_name: s("Cool_User"),
        user_id: s("1234"),
        broadcaster_user_id: s("1337"),
        broadcaster_user_name: s("Cooler_User"),
        is_gift: true,
        tier: WireTier::Tier2,
    });
    assert_eq!(
        new_twitch_event(&wire),
        Ok(TwitchEvent::ChannelSubscribe(SubscribeEvent {
            broadcaster_user_id: 1337,
            broadcaster_user_name: s("Cooler_User"),
            user_name: s("Cool_User"),
            user_id: 1234,
            is_gift: true,
            tier: NullSubTier::Tier2(s("epic")),
            cumulative_months: 1,
            duration_months: 1,
            message: s(""),
            streak_months: Some(1),
        }))
    );
}

#[test]
fn subscribe_reports_the_first_field_that_fails() {
    let wire = |user_id: &str, broadcaster: &str| {
        WireEvent::Subscribe(WireSubscribe {
            user_name: s("u"),
            user_id: s(user_id),
            broadcaster_user_id: s(broadcaster),
            broadcaster_user_name: s("b"),
            is_gift: false,
            tier: WireTier::Tier1,
        })
    };
    assert_eq!(
        new_twitch_event(&wire("x", "y")),
        Err(DecodeError::FieldParseError(WireField::UserId))
    );
    assert_eq!(
        new_twitch_event(&wire("1", "y")),
        Err(DecodeError::FieldParseError(WireField::BroadcasterUserId))
    );
}

#[test]
fn resubscribe_keeps_months_message_and_streak() {
    let wire = WireEvent::SubscriptionMessage(WireResubscribe {
        user_name: s("Cool_User"),
        user_id: s("1234"),
        broadcaster_user_id: s("1337"),
        broadcaster_user_name: s("Cooler_User"),
        tier: WireTier::Tier3,
        cumulative_months: 15,
        duration_months: 6,
        message: s("Love the stream!"),
        streak_months: None,
    });
    assert_eq!(
        new_twitch_event(&wire),
        Ok(TwitchEvent::ChannelResubscribe(SubscribeEvent {
            broadcaster_user_id: 1337,
            broadcaster_user_name: s("Cooler_User"),
            user_name: s("Cool_User"),
            user_id: 1234,
            is_gift: false,
            tier: NullSubTier::Tier3(s("legendary")),
            cumulative_months: 15,
            duration_months: 6,
            message: s("Love the stream!"),
            streak_months: None,
        }))
    );
}

#[test]
fn raid_is_copied_verbatim() {
    let wire = WireEvent::Raid(WireRaid {
        from_broadcaster_user_id: s("1234"),
        from_broadcaster_user_login: s("cool_user"),
        from_broadcaster_user_name: s("Cool_User"),
        to_broadcaster_user_id: s("1337"),
        to_broadcaster_user_login: s("cooler_user"),
        to_broadcaster_user_name: s("Cooler_User"),
        viewers: 9001,
    });
    assert_eq!(
        new_twitch_event(&wire),
        Ok(TwitchEvent::ChannelRaid(RaidEvent {
            from_broadcaster_user_id: s("1234"),
            from_broadcaster_user_login: s("cool_user"),
            from_broadcaster_user_name: s("Cool_User"),
            to_broadcaster_user_id: s("1337"),
            to_broadcaster_user_login: s("cooler_user"),
            to_broadcaster_user_name: s("Cooler_User"),
            viewers: 9001,
        }))
    );
}

#[test]
fn anonymous_gift_keeps_its_absent_fields_absent() {
    let wire = WireEvent::SubscriptionGift(WireGift {
        broadcaster_user_id: s("1337"),
        broadcaster_user_login: s("cooler_user"),
        broadcaster_user_name: s("Cooler_User"),
        cumulative_total: None,
        is_anonymous: true,
        tier: WireTier::Other(s("4000")),
        total: 2,
        user_id: None,
        user_login: None,
        user_name: None,
    });
    assert_eq!(
        new_twitch_event(&wire),
        Ok(TwitchEvent::ChannelSubGift(ChannelGiftMessage {
            broadcaster_user_id: s("1337"),
            broadcaster_user_login: s("cooler_user"),
            broadcaster_user_name: s("Cooler_User"),
            cumulative_total: None,
            is_anonymous: true,
            tier: NullSubTier::Other(s("4000")),
            total: 2,
            user_id: None,
            user_login: None,
            user_name: None,
        }))
    );
}

#[test]
fn named_gift_keeps_the_gifter() {
    let wire = WireEvent::SubscriptionGift(WireGift {
        broadcaster_user_id: s("1337"),
        broadcaster_user_login: s("cooler_user"),
        broadcaster_user_name: s("Cooler_User"),
        cumulative_total: Some(284),
        is_anonymous: false,
        tier: WireTier::Prime,
        total: 5,
        user_id: Some(s("1234")),
        user_login: Some(s("cool_user")),
        user_name: Some(s("Cool_User")),
    });
    match new_twitch_event(&wire) {
        Ok(TwitchEvent::ChannelSubGift(gift)) => {
            assert_eq!(gift.user_id, Some(s("1234")));
            assert_eq!(gift.user_login, Some(s("cool_user")));
            assert_eq!(gift.user_name, Some(s("Cool_User")));
            assert_eq!(gift.cumulative_total, Some(284));
            assert_eq!(gift.tier, NullSubTier::Prime(s("prime")));
            assert_eq!(gift.total, 5);
        }
        other => panic!("not a gift: {other:?}"),
    }
}

#[test]
fn cheer_is_copied_with_its_id_as_a_number() {
    let wire = WireEvent::Cheer(WireCheer {
        user_name: Some(s("Cool_User")),
        user_id: Some(s("1234")),
        bits: 1000,
        message: s("pogchamp"),
    });
    assert_eq!(
        new_twitch_event(&wire),
        Ok(TwitchEvent::ChannelCheer(CheerEvent {
            user_name: s("Cool_User"),
            user_id: 1234,
            bits: 1000,
            message: s("pogchamp"),
        }))
    );
}

#[test]
fn anonymous_cheer_is_refused_by_field() {
    let wire = |name: Option<&str>, id: Option<&str>| {
        WireEvent::Cheer(WireCheer {
            user_name: name.map(s),
            user_id: id.map(s),
            bits: 1,
            message: s(""),
        })
    };
    assert_eq!(
        new_twitch_event(&wire(None, None)),
        Err(DecodeError::FieldParseError(WireField::UserName))
    );
    assert_eq!(
        new_twitch_event(&wire(None, Some("1"))),
        Err(DecodeError::FieldParseError(WireField::UserName))
    );
    assert_eq!(
        new_twitch_event(&wire(Some("n"), None)),
        Err(DecodeError::FieldParseError(WireField::UserId))
    );
    assert_eq!(
        new_twitch_event(&wire(Some("n"), Some("one"))),
        Err(DecodeError::FieldParseError(WireField::UserId))
    );
}

#[test]
fn unsupported_kind_is_refused_by_its_tag() {
    let tag = EventTag { kind: s("channel.poll.begin"), version: s("1") };
    assert_eq!(
        new_twitch_event(&WireEvent::Unsupported(tag.clone())),
        Err(DecodeError::UnsupportedEventKind(tag))
    );
}

#[test]
fn every_tier_gets_its_label() {
    assert_eq!(twitch_teir_to_teir(&WireTier::Tier1), NullSubTier::Tier1(s("rare")));
    assert_eq!(twitch_teir_to_teir(&WireTier::Tier2), NullSubTier::Tier2(s("epic")));
    assert_eq!(twitch_teir_to_teir(&WireTier::Tier3), NullSubTier::Tier3(s("legendary")));
    assert_eq!(twitch_teir_to_teir(&WireTier::Prime), NullSubTier::Prime(s("prime")));
    assert_eq!(twitch_teir_to_teir(&WireTier::Other(s("x"))), NullSubTier::Other(s("x")));
    assert_eq!(twitch_teir_to_teir(&WireTier::Tier3).label(), "legendary");
}

#[test]
fn optional_text_is_copied_or_stays_absent() {
    assert_eq!(braid_optional_to_string_optional(&None), None);
    assert_eq!(braid_optional_to_string_optional(&Some(s("abc"))), Some(s("abc")));
}
