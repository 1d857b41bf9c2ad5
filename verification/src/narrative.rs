//! What the hub asks of the narrator and what it makes of the answer.
//!
//! The narrator itself is an outside service that turns a request into a
//! short story. This module words the request for each channel event and
//! wraps the story for display: the screen time grows with the length of
//! the story, half a second for every word.

use crate::messages::{
    ChannelGiftMessage, DisplayMessage, FollowEvent, RaidEvent, SubscribeEvent, TwitchEvent,
};
use vstd::prelude::*;
use vstd::string::StrSliceExecFns;
use vstd::string::StringExecFns;

verus! {

/// Screen time for each word of a story, in milliseconds.
pub const MS_PER_WORD: usize = 500;

/// The number of spaces in `s`.
pub open spec fn count_spaces(s: Seq<char>) -> nat
    decreases s.len(),
{
    if s.len() == 0 {
        0
    } else {
        count_spaces(s.drop_last()) + if s.last() == ' ' {
            1nat
        } else {
            0nat
        }
    }
}

/// The number of words in `s`: the pieces between its spaces, empty ones
/// included, so one more than it has spaces.
pub open spec fn count_words(s: Seq<char>) -> nat {
    count_spaces(s) + 1
}

/// The screen time of the story `s`: `MS_PER_WORD` for each word, and the
/// largest time there is where that would go beyond it.
pub open spec fn spec_display_time(s: Seq<char>) -> usize {
    if count_words(s) * MS_PER_WORD <= usize::MAX {
        (count_words(s) * MS_PER_WORD) as usize
    } else {
        usize::MAX
    }
}

/// How long the story `text` stays on screen, in milliseconds.
pub fn display_time(text: &str) -> (ms: usize)
    ensures
        ms == spec_display_time(text@),
{
    let len: usize = text.unicode_len();
    let mut spaces: usize = 0;
    let mut i: usize = 0;
    while i < len
        invariant
            i <= len,
            len == text@.len(),
            spaces <= i,
            spaces == count_spaces(text@.subrange(0, i as int)),
        decreases len - i,
    {
        let c: char = text.get_char(i);
        proof {
            let longer = text@.subrange(0, i + 1);
            assert(longer.drop_last() =~= text@.subrange(0, i as int));
            assert(longer.last() == c);
        }
        if c == ' ' {
            spaces = spaces + 1;
        }
        i = i + 1;
    }
    assert(text@.subrange(0, len as int) =~= text@);
    if spaces >= usize::MAX / MS_PER_WORD {
        usize::MAX
    } else {
        (spaces + 1) * MS_PER_WORD
    }
}

/// The character for the digit `d`.
pub open spec fn digit_char(d: int) -> char {
    if d == 0 {
        '0'
    } else if d == 1 {
        '1'
    } else if d == 2 {
        '2'
    } else if d == 3 {
        '3'
    } else if d == 4 {
        '4'
    } else if d == 5 {
        '5'
    } else if d == 6 {
        '6'
    } else if d == 7 {
        '7'
    } else if d == 8 {
        '8'
    } else {
        '9'
    }
}

/// The digits of the natural number `n` in base ten, without leading zeros.
pub open spec fn digits_text(n: nat) -> Seq<char>
    decreases n,
{
    if n < 10 {
        seq![digit_char(n as int)]
    } else {
        digits_text(n / 10).push(digit_char((n % 10) as int))
    }
}

/// The integer `n` in base ten, with `-` in front of a negative one.
pub open spec fn decimal_text(n: int) -> Seq<char> {
    if n < 0 {
        seq!['-'] + digits_text((-n) as nat)
    } else {
        digits_text(n as nat)
    }
}

fn digit_text(d: u64) -> (text: &'static str)
    requires
        d < 10,
    ensures
        text@ == seq![digit_char(d as int)],
{
    proof {
        reveal_strlit("0");
        reveal_strlit("1");
        reveal_strlit("2");
        reveal_strlit("3");
        reveal_strlit("4");
        reveal_strlit("5");
        reveal_strlit("6");
        reveal_strlit("7");
        reveal_strlit("8");
        reveal_strlit("9");
    }
    let text = if d == 0 {
        "0"
    } else if d == 1 {
        "1"
    } else if d == 2 {
        "2"
    } else if d == 3 {
        "3"
    } else if d == 4 {
        "4"
    } else if d == 5 {
        "5"
    } else if d == 6 {
        "6"
    } else if d == 7 {
        "7"
    } else if d == 8 {
        "8"
    } else {
        "9"
    };
    assert(text@ =~= seq![digit_char(d as int)]);
    text
}

fn append_digits(text: &mut String, n: u64)
    ensures
        final(text)@ == old(text)@ + digits_text(n as nat),
    decreases n,
{
    if n < 10 {
        text.append(digit_text(n));
    } else {
        append_digits(text, n / 10);
        text.append(digit_text(n % 10));
        assert(text@ =~= old(text)@ + digits_text(n as nat));
    }
}

/// Appends `n` in base ten to `text`.
pub fn append_decimal(text: &mut String, n: i64)
    ensures
        final(text)@ == old(text)@ + decimal_text(n as int),
{
    if n < 0 {
        proof {
            reveal_strlit("-");
        }
        text.append("-");
        let magnitude: u64 = (-(n as i128)) as u64;
        append_digits(text, magnitude);
        assert(text@ =~= old(text)@ + decimal_text(n as int));
    } else {
        append_digits(text, n as u64);
    }
}

/// The part that every request starts with.
pub open spec fn opening() -> Seq<char> {
    "tell me an epic story about how "@
}

/// The request for a follow.
pub open spec fn spec_follow_prompt(user_name: Seq<char>) -> Seq<char> {
    opening() + user_name + " joined forces with the null party."@
}

/// The request for a subscription.
pub open spec fn spec_subscribe_prompt(user_name: Seq<char>) -> Seq<char> {
    opening() + user_name + " supported the party"@
}

/// The request for a raid.
pub open spec fn spec_raid_prompt(viewers: i64, raider: Seq<char>) -> Seq<char> {
    opening() + decimal_text(viewers as int) + " people from "@ + raider
        + "'s party joined forces with the Null party for a joint quest."@
}

/// The name under which the gifter appears in a request.
pub open spec fn spec_gifter(user_name: Option<String>) -> Seq<char> {
    match user_name {
        Some(name) => name@,
        None => "anonymous"@,
    }
}

/// The request for gifted subscriptions.
pub open spec fn spec_gift_prompt(gifter: Seq<char>, tier: Seq<char>, total: i64) -> Seq<char> {
    opening() + gifter + " gifted new "@ + tier + " powers to "@ + decimal_text(total as int)
        + " null party members."@
}

/// The request that the narrator gets for `event`; `None` for the events
/// that are shown without a story.
pub open spec fn spec_prompt(event: TwitchEvent) -> Option<Seq<char>> {
    match event {
        TwitchEvent::ChannelFollow(follow) => Some(spec_follow_prompt(follow.user_name@)),
        TwitchEvent::ChannelSubscribe(sub) => Some(spec_subscribe_prompt(sub.user_name@)),
        TwitchEvent::ChannelRaid(raid) => Some(
            spec_raid_prompt(raid.viewers, raid.from_broadcaster_user_name@),
        ),
        TwitchEvent::ChannelSubGift(gift) => Some(
            spec_gift_prompt(spec_gifter(gift.user_name), gift.tier.spec_label(), gift.total),
        ),
        TwitchEvent::ChannelResubscribe(_) => None,
        TwitchEvent::ChannelCheer(_) => None,
    }
}

/// The direction under which the narrator answers every request.
pub fn narrator_direction() -> (text: &'static str)
    ensures
        text@
            == "You are D&DGPT, when answering any questions, you always answer with a short epic story as a dungeons and dragons dungeon master in 27 words or less."@,
{
    "You are D&DGPT, when answering any questions, you always answer with a short epic story as a dungeons and dragons dungeon master in 27 words or less."
}

/// The request for the follow `event`.
pub fn handle_follow_event(event: &FollowEvent) -> (prompt: String)
    ensures
        prompt@ == spec_follow_prompt(event.user_name@),
{
    let mut prompt = "tell me an epic story about how ".to_owned();
    prompt.append(event.user_name.as_str());
    prompt.append(" joined forces with the null party.");
    prompt
}

/// The request for the subscription `event`.
pub fn handle_subscribe_event(event: &SubscribeEvent) -> (prompt: String)
    ensures
        prompt@ == spec_subscribe_prompt(event.user_name@),
{
    let mut prompt = "tell me an epic story about how ".to_owned();
    prompt.append(event.user_name.as_str());
    prompt.append(" supported the party");
    prompt
}

/// The request for the raid `event`.
pub fn handle_raid_event(event: &RaidEvent) -> (prompt: String)
    ensures
        prompt@ == spec_raid_prompt(event.viewers, event.from_broadcaster_user_name@),
{
    let mut prompt = "tell me an epic story about how ".to_owned();
    append_decimal(&mut prompt, event.viewers);
    prompt.append(" people from ");
    prompt.append(event.from_broadcaster_user_name.as_str());
    prompt.append("'s party joined forces with the Null party for a joint quest.");
    prompt
}

/// The request for the gifted subscriptions `event`. A gift without a
/// gifter's name is told as the gift of someone anonymous.
pub fn handle_gift_sub_event(event: &ChannelGiftMessage) -> (prompt: String)
    ensures
        prompt@ == spec_gift_prompt(
            spec_gifter(event.user_name),
            event.tier.spec_label(),
            event.total,
        ),
{
    let mut prompt = "tell me an epic story about how ".to_owned();
    match &event.user_name {
        Some(name) => prompt.append(name.as_str()),
        None => prompt.append("anonymous"),
    }
    prompt.append(" gifted new ");
    prompt.append(event.tier.label());
    prompt.append(" powers to ");
    append_decimal(&mut prompt, event.total);
    prompt.append(" null party members.");
    prompt
}

/// The request that the narrator gets for `event`; `None` for the events
/// that are shown without a story.
pub fn new_event(event: &TwitchEvent) -> (prompt: Option<String>)
    ensures
        match prompt {
            Some(text) => spec_prompt(*event) == Some(text@),
            None => spec_prompt(*event) is None,
        },
{
    match event {
        TwitchEvent::ChannelFollow(follow) => Some(handle_follow_event(follow)),
        TwitchEvent::ChannelSubscribe(sub) => Some(handle_subscribe_event(sub)),
        TwitchEvent::ChannelRaid(raid) => Some(handle_raid_event(raid)),
        TwitchEvent::ChannelSubGift(gift) => Some(handle_gift_sub_event(gift)),
        TwitchEvent::ChannelResubscribe(_) => None,
        TwitchEvent::ChannelCheer(_) => None,
    }
}

/// Wraps the narrator's `story` about `event` for display: no image, no
/// sound, and a screen time that goes by the story's length.
pub fn display_message(event: &TwitchEvent, story: &str) -> (message: DisplayMessage)
    ensures
        message.message@ == story@,
        message.image_url@ == "none"@,
        message.sound_url@ == "none"@,
        message.display_time == spec_display_time(story@),
        message.payload == *event,
{
    DisplayMessage {
        message: story.to_owned(),
        image_url: "none".to_owned(),
        sound_url: "none".to_owned(),
        display_time: display_time(story),
        payload: event.clone(),
    }
}

/// Wraps `event` for display where no story is told of it: an empty text,
/// shown for the time of one word.
pub fn display_without_story(event: &TwitchEvent) -> (message: DisplayMessage)
    ensures
        message.message@ == Seq::<char>::empty(),
        message.image_url@ == "none"@,
        message.sound_url@ == "none"@,
        message.display_time == spec_display_time(Seq::<char>::empty()),
        message.payload == *event,
{
    proof {
        reveal_strlit("");
        assert(""@ =~= Seq::<char>::empty());
    }
    display_message(event, "")
}

} // verus!
