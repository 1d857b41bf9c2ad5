//! The hub's event store: the queue of events that wait for display, a
//! bounded window of the events received most recently, and the flag that
//! pauses the fan-out.
//!
//! The store is one value, handed to whoever needs it; callers that share
//! it between tasks put it behind a lock of their own and hold that lock
//! for one call at a time.

use crate::messages::DisplayMessage;
use std::collections::VecDeque;
use vstd::prelude::*;

verus! {

/// Number of events that the window of recent events holds unless the
/// store is built with another capacity.
pub const RECENT_HISTORY_CAPACITY: usize = 10;

/// The last `n` items of `s`, or all of `s` where it has no more than `n`.
pub open spec fn last_n<T>(s: Seq<T>, n: nat) -> Seq<T> {
    if s.len() <= n {
        s
    } else {
        s.subrange(s.len() - n, s.len() as int)
    }
}

/// The first `n` items of `s`, or all of `s` where it has no more than `n`.
pub open spec fn first_n<T>(s: Seq<T>, n: nat) -> Seq<T> {
    if s.len() <= n {
        s
    } else {
        s.subrange(0, n as int)
    }
}

/// What a store holds, as plain sequences.
pub struct QueuesModel {
    /// Events received and not yet displayed, oldest first.
    pub pending: Seq<DisplayMessage>,
    /// The events received last, oldest first, displayed or not.
    pub recent: Seq<DisplayMessage>,
    /// Whether events are handed out for display.
    pub active: bool,
    /// The most events that `recent` holds.
    pub capacity: nat,
}

impl QueuesModel {
    /// The store as it is built: nothing received, fan-out running.
    pub open spec fn fresh(capacity: nat) -> QueuesModel {
        QueuesModel { pending: Seq::empty(), recent: Seq::empty(), active: true, capacity }
    }

    /// The store after `event` is received.
    pub open spec fn enqueue(self, event: DisplayMessage) -> QueuesModel {
        QueuesModel {
            pending: self.pending.push(event),
            recent: last_n(self.recent.push(event), self.capacity),
            ..self
        }
    }

    /// The store after each of `events` is received, in order.
    pub open spec fn enqueue_all(self, events: Seq<DisplayMessage>) -> QueuesModel
        decreases events.len(),
    {
        if events.len() == 0 {
            self
        } else {
            self.enqueue_all(events.drop_last()).enqueue(events.last())
        }
    }

    /// The store after the fan-out is paused or resumed.
    pub open spec fn set_active(self, active: bool) -> QueuesModel {
        QueuesModel { active, ..self }
    }

    /// The event that is handed out next: the oldest pending one, and none
    /// while the fan-out is paused.
    pub open spec fn next(self) -> Option<DisplayMessage> {
        if self.active && self.pending.len() > 0 {
            Some(self.pending[0])
        } else {
            None
        }
    }

    /// The store after `next` has been handed out.
    pub open spec fn pop(self) -> QueuesModel {
        if self.active && self.pending.len() > 0 {
            QueuesModel { pending: self.pending.drop_first(), ..self }
        } else {
            self
        }
    }

    /// The store after `k` events have been handed out, one by one.
    pub open spec fn pop_n(self, k: nat) -> QueuesModel
        decreases k,
    {
        if k == 0 {
            self
        } else {
            self.pop().pop_n((k - 1) as nat)
        }
    }
}

/// The hub's event store.
pub struct Queues {
    unpublished_events: VecDeque<DisplayMessage>,
    latest_events: VecDeque<DisplayMessage>,
    active: bool,
    capacity: usize,
}

impl View for Queues {
    type V = QueuesModel;

    closed spec fn view(&self) -> QueuesModel {
        QueuesModel {
            pending: self.unpublished_events@,
            recent: self.latest_events@,
            active: self.active,
            capacity: self.capacity as nat,
        }
    }
}

impl Queues {
    /// The store's invariant: the window of recent events is within its
    /// capacity. Every constructor establishes it and every method keeps it.
    pub closed spec fn wf(&self) -> bool {
        self.latest_events@.len() <= self.capacity
    }

    /// In a well-formed store the window of recent events is within its
    /// capacity.
    pub proof fn lemma_wf_bounds_recent(&self)
        requires
            self.wf(),
        ensures
            self@.recent.len() <= self@.capacity,
    {
    }

    /// An empty store with room for `RECENT_HISTORY_CAPACITY` recent
    /// events, its fan-out running.
    pub fn new() -> (queues: Queues)
        ensures
            queues.wf(),
            queues@ == QueuesModel::fresh(RECENT_HISTORY_CAPACITY as nat),
    {
        Queues::with_history_capacity(RECENT_HISTORY_CAPACITY)
    }

    /// An empty store with room for `capacity` recent events, its fan-out
    /// running.
    pub fn with_history_capacity(capacity: usize) -> (queues: Queues)
        ensures
            queues.wf(),
            queues@ == QueuesModel::fresh(capacity as nat),
    {
        Queues {
            unpublished_events: VecDeque::new(),
            latest_events: VecDeque::new(),
            active: true,
            capacity,
        }
    }

    /// Receives `event`: it joins the end of the pending queue and of the
    /// recent events, from which the oldest leave until no more than the
    /// capacity are left. Whether the fan-out is paused makes no difference.
    pub fn enqueue(&mut self, event: DisplayMessage)
        ensures
            final(self).wf(),
            final(self)@ == old(self)@.enqueue(event),
    {
        let ghost received = self.latest_events@.push(event);
        self.unpublished_events.push_back(event.clone());
        self.latest_events.push_back(event);
        while self.latest_events.len() > self.capacity
            invariant
                self.unpublished_events@ == old(self).unpublished_events@.push(event),
                self.active == old(self).active,
                self.capacity == old(self).capacity,
                last_n(self.latest_events@, self.capacity as nat) == last_n(
                    received,
                    self.capacity as nat,
                ),
            decreases self.latest_events@.len(),
        {
            let ghost longer = self.latest_events@;
            self.latest_events.pop_front();
            assert(last_n(self.latest_events@, self.capacity as nat) =~= last_n(
                longer,
                self.capacity as nat,
            ));
        }
    }

    /// Pauses the fan-out (`false`) or resumes it (`true`).
    pub fn set_active(&mut self, active: bool)
        ensures
            final(self).wf() == old(self).wf(),
            final(self)@ == old(self)@.set_active(active),
    {
        self.active = active;
    }

    /// Whether the fan-out is running.
    pub fn is_active(&self) -> (active: bool)
        ensures
            active == self@.active,
    {
        self.active
    }

    /// Takes the oldest pending event out for display. Nothing is taken
    /// while the fan-out is paused, or when no event is pending.
    pub fn next_event(&mut self) -> (event: Option<DisplayMessage>)
        ensures
            final(self).wf() == old(self).wf(),
            event == old(self)@.next(),
            final(self)@ == old(self)@.pop(),
    {
        if !self.active {
            return None;
        }
        let event = self.unpublished_events.pop_front();
        assert(self.unpublished_events@ =~= old(self).unpublished_events@.drop_first()
            || event is None);
        event
    }

    /// Number of events that wait for display.
    pub fn pending_len(&self) -> (n: usize)
        ensures
            n == self@.pending.len(),
    {
        self.unpublished_events.len()
    }

    /// Copies of all pending events, oldest first.
    pub fn pending(&self) -> (events: Vec<DisplayMessage>)
        ensures
            events@ == self@.pending,
    {
        copy_front(&self.unpublished_events, self.unpublished_events.len())
    }

    /// Copies of the oldest pending events, at most `limit` of them.
    pub fn next_pending(&self, limit: usize) -> (events: Vec<DisplayMessage>)
        ensures
            events@ == first_n(self@.pending, limit as nat),
    {
        let n: usize = if self.unpublished_events.len() < limit {
            self.unpublished_events.len()
        } else {
            limit
        };
        copy_front(&self.unpublished_events, n)
    }

    /// Copies of the events received last, oldest first.
    pub fn recent_history(&self) -> (events: Vec<DisplayMessage>)
        ensures
            events@ == self@.recent,
    {
        copy_front(&self.latest_events, self.latest_events.len())
    }
}

/// Copies of the first `n` events of `queue`.
fn copy_front(queue: &VecDeque<DisplayMessage>, n: usize) -> (events: Vec<DisplayMessage>)
    requires
        n <= queue@.len(),
    ensures
        events@ == queue@.subrange(0, n as int),
{
    let mut events: Vec<DisplayMessage> = Vec::new();
    let mut i: usize = 0;
    while i < n
        invariant
            i <= n <= queue@.len(),
            events@ == queue@.subrange(0, i as int),
        decreases n - i,
    {
        events.push(queue[i].clone());
        assert(events@ =~= queue@.subrange(0, i + 1));
        i = i + 1;
    }
    events
}

/// Receiving events extends the pending queue by exactly those events, and
/// leaves in the window of recent events the last `capacity` of all that
/// were ever received, in arrival order. The pause flag is neither read nor
/// changed, so this holds of a paused store as of a running one.
pub proof fn lemma_enqueue_all(start: QueuesModel, events: Seq<DisplayMessage>)
    requires
        start.recent.len() <= start.capacity,
    ensures
        start.enqueue_all(events).pending == start.pending + events,
        start.enqueue_all(events).recent == last_n(start.recent + events, start.capacity),
        start.enqueue_all(events).active == start.active,
        start.enqueue_all(events).capacity == start.capacity,
    decreases events.len(),
{
    if events.len() == 0 {
        assert(start.pending + events =~= start.pending);
        assert(start.recent + events =~= start.recent);
    } else {
        let earlier = events.drop_last();
        lemma_enqueue_all(start, earlier);
        let before = start.enqueue_all(earlier);
        assert(before.pending.push(events.last()) =~= start.pending + events);
        assert((start.recent + earlier).push(events.last()) =~= start.recent + events);
        assert(last_n(before.recent.push(events.last()), start.capacity) =~= last_n(
            start.recent + events,
            start.capacity,
        ));
    }
}

/// After `events` arrive at a paused store that was empty, all of them are
/// pending, and the window of recent events holds the last `capacity` of
/// them (all of them, if they are fewer), in arrival order.
pub proof fn lemma_paused_store_keeps_everything(capacity: nat, events: Seq<DisplayMessage>)
    ensures
        ({
            let end = QueuesModel::fresh(capacity).set_active(false).enqueue_all(events);
            &&& !end.active
            &&& end.pending == events
            &&& end.recent == last_n(events, capacity)
            &&& end.recent.len() == if events.len() <= capacity {
                events.len()
            } else {
                capacity
            }
        }),
{
    let start = QueuesModel::fresh(capacity).set_active(false);
    lemma_enqueue_all(start, events);
    assert(start.pending + events =~= events);
    assert(start.recent + events =~= events);
}

/// Handing out `k` events from a running store removes the `k` oldest
/// pending ones and touches nothing else.
pub proof fn lemma_pop_n(start: QueuesModel, k: nat)
    requires
        start.active,
        k <= start.pending.len(),
    ensures
        start.pop_n(k) == (QueuesModel {
            pending: start.pending.subrange(k as int, start.pending.len() as int),
            ..start
        }),
    decreases k,
{
    if k == 0 {
        assert(start.pending.subrange(0, start.pending.len() as int) =~= start.pending);
    } else {
        lemma_pop_n(start.pop(), (k - 1) as nat);
        assert(start.pop().pending.subrange(k - 1, start.pop().pending.len() as int)
            =~= start.pending.subrange(k as int, start.pending.len() as int));
    }
}

/// Events leave in the order in which they came: when a store that was
/// empty receives `events` while paused and is then resumed, the event
/// handed out after `k` earlier ones is `events[k]`.
pub proof fn lemma_drain_is_fifo(capacity: nat, events: Seq<DisplayMessage>, k: nat)
    requires
        k < events.len(),
    ensures
        QueuesModel::fresh(capacity).set_active(false).enqueue_all(events).set_active(true).pop_n(
            k,
        ).next() == Some(events[k as int]),
{
    let paused = QueuesModel::fresh(capacity).set_active(false);
    lemma_paused_store_keeps_everything(capacity, events);
    let resumed = paused.enqueue_all(events).set_active(true);
    lemma_pop_n(resumed, k);
}

} // verus!
