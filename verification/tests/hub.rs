use futures_channel::mpsc::{unbounded, UnboundedReceiver};
use tokio_tungstenite::tungstenite::Message;
use twitch_alerts::messages::{DisplayMessage, FollowEvent, TwitchEvent};
use twitch_alerts::queues::Queues;
use twitch_alerts::registry::{ConnectionId, ConnectionMap};
use twitch_alerts::scheduler::{
    BroadcastScheduler, Phase, SchedulerAction, SchedulerConfig, INTER_EVENT_PAUSE_MS,
    POLL_INTERVAL_MS,
};

fn id(n: u16) -> ConnectionId {
    ConnectionId { ip: 0xffff_7f00_0001, port: n }
}

fn event(name: &str, display_time: usize) -> DisplayMessage {
    DisplayMessage {
        message: name.to_string(),
        image_url: "none".to_string(),
        sound_url: "none".to_string(),
        display_time,
        payload: TwitchEvent::ChannelFollow(FollowEvent { user_name: name.to_string(), user_id: 1 }),
    }
}

fn received(rx: &mut UnboundedReceiver<Message>) -> Vec<String> {
    let mut texts = Vec::new();
    while let Ok(message) = rx.try_recv() {
        texts.push(message.to_text().unwrap().to_string());
    }
    texts
}

/// Runs the scheduler until nothing is on screen and nothing is pending,
/// doing what each action asks for, and gives the waits that it asked for.
fn drain(
    scheduler: &mut BroadcastScheduler,
    queues: &mut Queues,
    registry: &mut ConnectionMap,
) -> Vec<u64> {
    let mut waits = Vec::new();
    loop {
        match scheduler.next_action(queues) {
            SchedulerAction::Show(event) => {
                registry.broadcast(&format!("show {}", event.message));
            }
            SchedulerAction::Clear => {
                registry.broadcast("clear");
            }
            SchedulerAction::Wait(ms) => {
                if scheduler.phase() == Phase::Idle && queues.pending_len() == 0 {
                    waits.push(ms);
                    return waits;
                }
                waits.push(ms);
            }
        }
    }
}

#[test]
fn standard_pauses_are_half_a_second() {
    let config = SchedulerConfig::standard();
    assert_eq!(config.poll_interval_ms, 500);
    assert_eq!(config.inter_event_pause_ms, 500);
    assert_eq!(POLL_INTERVAL_MS, 500);
    assert_eq!(INTER_EVENT_PAUSE_MS, 500);
    assert_eq!(BroadcastScheduler::new(config).phase(), Phase::Idle);
    assert_eq!(BroadcastScheduler::new(config).config(), config);
}

#[test]
fn three_events_reach_two_clients_one_at_a_time() {
    let mut registry = ConnectionMap::new();
    let (tx1, mut rx1) = unbounded();
    let (tx2, mut rx2) = unbounded();
    registry.insert(id(1), tx1);
    registry.insert(id(2), tx2);
    let mut queues = Queues::new();
    queues.enqueue(event("first", 1000));
    queues.enqueue(event("second", 500));
    queues.enqueue(event("third", 2000));
    let mut scheduler = BroadcastScheduler::new(SchedulerConfig::standard());

    let waits = drain(&mut scheduler, &mut queues, &mut registry);

    let expected =
        vec!["show first", "clear", "show second", "clear", "show third", "clear"];
    assert_eq!(received(&mut rx1), expected);
    assert_eq!(received(&mut rx2), expected);
    // Each display time is followed by the pause between events.
    assert_eq!(waits, vec![1000, 500, 500, 500, 2000, 500]);
    assert_eq!(registry.len(), 2);
    assert_eq!(queues.pending_len(), 0);
    assert_eq!(queues.recent_history().len(), 3);
}

#[test]
fn scheduler_steps_in_the_order_show_wait_clear_pause() {
    let mut queues = Queues::new();
    queues.enqueue(event("only", 1234));
    let mut scheduler = BroadcastScheduler::new(SchedulerConfig {
        poll_interval_ms: 7,
        inter_event_pause_ms: 9,
    });
    assert_eq!(scheduler.next_action(&mut queues), SchedulerAction::Show(event("only", 1234)));
    assert_eq!(scheduler.phase(), Phase::Shown(1234));
    // What arrives meanwhile waits its turn.
    queues.enqueue(event("late", 1));
    assert_eq!(scheduler.next_action(&mut queues), SchedulerAction::Wait(1234));
    assert_eq!(scheduler.phase(), Phase::Expired);
    assert_eq!(scheduler.next_action(&mut queues), SchedulerAction::Clear);
    assert_eq!(scheduler.phase(), Phase::Cleared);
    assert_eq!(scheduler.next_action(&mut queues), SchedulerAction::Wait(9));
    assert_eq!(scheduler.phase(), Phase::Idle);
    assert_eq!(queues.pending(), vec![event("late", 1)]);
    assert_eq!(scheduler.next_action(&mut queues), SchedulerAction::Show(event("late", 1)));
}

#[test]
fn paused_scheduler_only_waits_and_loses_nothing() {
    let mut queues = Queues::new();
    let mut scheduler = BroadcastScheduler::new(SchedulerConfig::standard());
    assert_eq!(scheduler.next_action(&mut queues), SchedulerAction::Wait(500));
    queues.set_active(false);
    queues.enqueue(event("a", 10));
    queues.enqueue(event("b", 20));
    for _ in 0..5 {
        assert_eq!(scheduler.next_action(&mut queues), SchedulerAction::Wait(500));
        assert_eq!(scheduler.phase(), Phase::Idle);
    }
    assert_eq!(queues.pending_len(), 2);
    queues.set_active(true);
    assert_eq!(scheduler.next_action(&mut queues), SchedulerAction::Show(event("a", 10)));
}

#[test]
fn pausing_while_an_event_is_on_screen_lets_it_run_its_course() {
    let mut queues = Queues::new();
    queues.enqueue(event("a", 10));
    queues.enqueue(event("b", 20));
    let mut scheduler = BroadcastScheduler::new(SchedulerConfig::standard());
    assert_eq!(scheduler.next_action(&mut queues), SchedulerAction::Show(event("a", 10)));
    queues.set_active(false);
    assert_eq!(scheduler.next_action(&mut queues), SchedulerAction::Wait(10));
    assert_eq!(scheduler.next_action(&mut queues), SchedulerAction::Clear);
    assert_eq!(scheduler.next_action(&mut queues), SchedulerAction::Wait(500));
    assert_eq!(scheduler.next_action(&mut queues), SchedulerAction::Wait(500));
    assert_eq!(queues.pending(), vec![event("b", 20)]);
}

#[test]
fn client_whose_send_fails_is_removed_and_the_other_goes_on() {
    let mut registry = ConnectionMap::new();
    let (dead_tx, dead_rx) = unbounded();
    let (live_tx, mut live_rx) = unbounded();
    registry.insert(id(1), dead_tx);
    registry.insert(id(2), live_tx);
    assert_eq!(registry.broadcast("one"), vec![]);
    drop(dead_rx);
    assert_eq!(registry.broadcast("two"), vec![id(1)]);
    assert!(!registry.contains(id(1)));
    assert!(registry.contains(id(2)));
    assert_eq!(registry.len(), 1);
    assert_eq!(registry.broadcast("three"), vec![]);
    assert_eq!(received(&mut live_rx), vec!["one", "two", "three"]);
}

#[test]
fn failed_client_gets_nothing_more_from_the_scheduler() {
    let mut registry = ConnectionMap::new();
    let (gone_tx, mut gone_rx) = unbounded();
    let (live_tx, mut live_rx) = unbounded();
    registry.insert(id(1), gone_tx);
    registry.insert(id(2), live_tx);
    let mut queues = Queues::new();
    queues.enqueue(event("first", 1));
    queues.enqueue(event("second", 1));
    let mut scheduler = BroadcastScheduler::new(SchedulerConfig::standard());

    assert!(matches!(scheduler.next_action(&mut queues), SchedulerAction::Show(_)));
    assert_eq!(registry.broadcast("show first"), vec![]);
    assert_eq!(received(&mut gone_rx), vec!["show first"]);
    gone_rx.close();
    drain(&mut scheduler, &mut queues, &mut registry);

    assert_eq!(registry.len(), 1);
    assert!(!registry.contains(id(1)));
    assert_eq!(received(&mut gone_rx), Vec::<String>::new());
    assert_eq!(received(&mut live_rx), vec!["show first", "clear", "show second", "clear"]);
}

#[test]
fn registry_inserts_replaces_and_removes() {
    let mut registry = ConnectionMap::new();
    assert_eq!(registry.len(), 0);
    assert!(!registry.contains(id(1)));
    let (old_tx, mut old_rx) = unbounded();
    let (new_tx, mut new_rx) = unbounded();
    let (other_tx, mut other_rx) = unbounded();
    registry.insert(id(1), old_tx);
    registry.insert(id(2), other_tx);
    registry.insert(id(1), new_tx);
    assert_eq!(registry.len(), 2);
    assert_eq!(registry.send_to_all("hello"), vec![]);
    assert_eq!(received(&mut old_rx), Vec::<String>::new());
    assert_eq!(received(&mut new_rx), vec!["hello"]);
    assert_eq!(received(&mut other_rx), vec!["hello"]);
    registry.remove(id(1));
    registry.remove(id(7));
    assert_eq!(registry.len(), 1);
    assert!(!registry.contains(id(1)));
    assert!(registry.contains(id(2)));
    registry.remove_all(&vec![id(2), id(2), id(3)]);
    assert_eq!(registry.len(), 0);
    assert_eq!(registry.broadcast("nobody"), vec![]);
}

#[test]
fn send_to_all_lists_failures_and_removes_nothing() {
    let mut registry = ConnectionMap::new();
    let (tx1, rx1) = unbounded();
    let (tx2, mut rx2) = unbounded();
    let (tx3, rx3) = unbounded();
    registry.insert(id(1), tx1);
    registry.insert(id(2), tx2);
    registry.insert(id(3), tx3);
    drop(rx1);
    drop(rx3);
    assert_eq!(registry.send_to_all("x"), vec![id(1), id(3)]);
    assert_eq!(registry.len(), 3);
    assert_eq!(received(&mut rx2), vec!["x"]);
    assert_eq!(registry.broadcast("y"), vec![id(1), id(3)]);
    assert_eq!(registry.len(), 1);
}

#[test]
fn undelivered_lists_the_connections_whose_answer_is_no() {
    let mut registry = ConnectionMap::new();
    let (tx1, _rx1) = unbounded();
    let (tx2, _rx2) = unbounded();
    let (tx3, _rx3) = unbounded();
    registry.insert(id(1), tx1);
    registry.insert(id(2), tx2);
    registry.insert(id(3), tx3);
    assert_eq!(registry.undelivered(&vec![true, true, true]), vec![]);
    assert_eq!(registry.undelivered(&vec![true, false, false]), vec![id(2), id(3)]);
    assert_eq!(registry.undelivered(&vec![false, true, false]), vec![id(1), id(3)]);
    // An answer that is missing counts as delivered; one too many is ignored.
    assert_eq!(registry.undelivered(&vec![false]), vec![id(1)]);
    assert_eq!(registry.undelivered(&vec![]), vec![]);
    assert_eq!(registry.undelivered(&vec![true, true, true, false]), vec![]);
    assert_eq!(ConnectionMap::new().undelivered(&vec![false, false]), vec![]);
    assert_eq!(registry.len(), 3);
}
