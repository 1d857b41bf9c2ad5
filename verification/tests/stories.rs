use twitch_alerts::messages::{
    ChannelGiftMessage, CheerEvent, FollowEvent, NullSubTier, RaidEvent, SubscribeEvent,
    TwitchEvent,
};
use twitch_alerts::narrative::{
    append_decimal, display_message, display_time, display_without_story, handle_follow_event,
    handle_gift_sub_event,
    handle_raid_event, handle_subscribe_event, narrator_direction, new_event, MS_PER_WORD,
};
use twitch_alerts::numeric::parse_i64;
use twitch_alerts::overlay::{actor, event_class, headline, queue_class, AdminTemplate};
use twitch_alerts::queues::Queues;

fn s(text: &str) -> String {
    text.to_string()
}

fn follow() -> FollowEvent {
    FollowEvent { user_name: s("Awesome_User"), user_id: 1337 }
}

fn subscribe() -> SubscribeEvent {
    SubscribeEvent {
        broadcaster_user_id: 1,
        broadcaster_user_name: s("Cooler_User"),
        user_name: s("Cool_User"),
        user_id: 2,
        is_gift: false,
        tier: NullSubTier::Tier1(s("rare")),
        cumulative_months: 1,
        duration_months: 1,
        message: s(""),
        streak_months: Some(1),
    }
}

fn raid() -> RaidEvent {
    RaidEvent {
        from_broadcaster_user_id: s("1234"),
        from_broadcaster_user_login: s("cool_user"),
        from_broadcaster_user_name: s("Cool_User"),
        to_broadcaster_user_id: s("1337"),
        to_broadcaster_user_login: s("cooler_user"),
        to_broadcaster_user_name: s("Cooler_User"),
        viewers: 9001,
    }
}

fn gift(user_name: Option<&str>) -> ChannelGiftMessage {
    ChannelGiftMessage {
        broadcaster_user_id: s("1337"),
        broadcaster_user_login: s("cooler_user"),
        broadcaster_user_name: s("Cooler_User"),
        cumulative_total: None,
        is_anonymous: user_name.is_none(),
        tier: NullSubTier::Tier2(s("epic")),
        total: 5,
        user_id: None,
        user_login: None,
        user_name: user_name.map(s),
    }
}

fn cheer() -> CheerEvent {
    CheerEvent { user_name: s("Bits_User"), user_id: 3, bits: 100, message: s("hi") }
}

#[test]
fn display_time_is_half_a_second_a_word() {
    assert_eq!(MS_PER_WORD, 500);
    assert_eq!(display_time(""), 500);
    assert_eq!(display_time("word"), 500);
    assert_eq!(display_time("two words"), 1000);
    assert_eq!(display_time("a  b"), 1500);
    assert_eq!(display_time(" a "), 1500);
    assert_eq!(display_time("tab\tis no space"), 1500);
    for text in ["", "a", "a b c", "  ", "The hero  arrived. ", "non breaking\u{a0}space"] {
        assert_eq!(display_time(text), text.split(" ").count() * 500, "{text:?}");
    }
}

#[test]
fn decimal_text_agrees_with_std_and_reads_back() {
    for n in [0i64, 1, 9, 10, 11, 99, 100, 9001, -1, -10, -9001, i64::MAX, i64::MIN] {
        let mut text = s("n=");
        append_decimal(&mut text, n);
        assert_eq!(text, format!("n={n}"));
        assert_eq!(parse_i64(&text[2..]), Some(n));
    }
}

#[test]
fn each_event_has_its_request() {
    assert_eq!(
        handle_follow_event(&follow()),
        "tell me an epic story about how Awesome_User joined forces with the null party."
    );
    assert_eq!(
        handle_subscribe_event(&subscribe()),
        "tell me an epic story about how Cool_User supported the party"
    );
    assert_eq!(
        handle_raid_event(&raid()),
        "tell me an epic story about how 9001 people from Cool_User's party joined forces with the Null party for a joint quest."
    );
    assert_eq!(
        handle_gift_sub_event(&gift(Some("Cool_User"))),
        "tell me an epic story about how Cool_User gifted new epic powers to 5 null party members."
    );
    assert_eq!(
        handle_gift_sub_event(&gift(None)),
        "tell me an epic story about how anonymous gifted new epic powers to 5 null party members."
    );
}

#[test]
fn request_is_chosen_by_the_kind_of_event() {
    assert_eq!(
        new_event(&TwitchEvent::ChannelFollow(follow())),
        Some(handle_follow_event(&follow()))
    );
    assert_eq!(
        new_event(&TwitchEvent::ChannelSubscribe(subscribe())),
        Some(handle_subscribe_event(&subscribe()))
    );
    assert_eq!(new_event(&TwitchEvent::ChannelRaid(raid())), Some(handle_raid_event(&raid())));
    assert_eq!(
        new_event(&TwitchEvent::ChannelSubGift(gift(None))),
        Some(handle_gift_sub_event(&gift(None)))
    );
    assert_eq!(new_event(&TwitchEvent::ChannelResubscribe(subscribe())), None);
    assert_eq!(new_event(&TwitchEvent::ChannelCheer(cheer())), None);
}

#[test]
fn narrator_is_directed_to_be_brief() {
    assert!(narrator_direction().starts_with("You are D&DGPT"));
    assert!(narrator_direction().ends_with("in 27 words or less."));
}

#[test]
fn story_is_wrapped_with_its_screen_time() {
    let event = TwitchEvent::ChannelRaid(raid());
    let message = display_message(&event, "A horde of nine thousand arrives");
    assert_eq!(message.message, "A horde of nine thousand arrives");
    assert_eq!(message.image_url, "none");
    assert_eq!(message.sound_url, "none");
    assert_eq!(message.display_time, 3000);
    assert_eq!(message.payload, event);
    assert_eq!(message.clone(), message);
}

#[test]
fn overlay_words_follow_the_kind_of_event() {
    let cases = [
        (TwitchEvent::ChannelFollow(follow()), "Followed", "follow", "Awesome_User"),
        (TwitchEvent::ChannelSubscribe(subscribe()), "Subscribed", "subscribe", "Cool_User"),
        (TwitchEvent::ChannelResubscribe(subscribe()), "Resubscribed", "resubscribe", "Cool_User"),
        (TwitchEvent::ChannelRaid(raid()), "Raided", "raid", "Cool_User"),
        (TwitchEvent::ChannelSubGift(gift(Some("Gifter"))), "Gifted Sub!", "subgift", "Gifter"),
        (TwitchEvent::ChannelSubGift(gift(None)), "Gifted Sub!", "subgift", "Anonymous"),
        (TwitchEvent::ChannelCheer(cheer()), "Cheered!", "cheer", "Bits_User"),
    ];
    for (event, head, class, name) in cases {
        assert_eq!(headline(&event), head);
        assert_eq!(event_class(&event), class);
        assert_eq!(actor(&event), name);
    }
}

#[test]
fn admin_page_shows_whether_the_fan_out_runs() {
    let mut queues = Queues::new();
    assert_eq!(
        AdminTemplate::new(&queues, s("localhost"), 9000),
        AdminTemplate { enabled: true, hostname: s("localhost"), port: 9000 }
    );
    queues.set_active(false);
    assert!(!AdminTemplate::new(&queues, s("localhost"), 9000).enabled);
    assert_eq!(queue_class(true), "running");
    assert_eq!(queue_class(false), "paused");
}

#[test]
fn event_without_a_story_is_shown_for_the_time_of_one_word() {
    let event = TwitchEvent::ChannelCheer(cheer());
    let message = display_without_story(&event);
    assert_eq!(message.message, "");
    assert_eq!(message.image_url, "none");
    assert_eq!(message.sound_url, "none");
    assert_eq!(message.display_time, 500);
    assert_eq!(message.payload, event);
}
