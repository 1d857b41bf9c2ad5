//! The broadcast scheduler's decisions.
//!
//! One event is on screen at a time, hub-wide: an event is shown, stays for
//! its display time, is cleared, and only after a short pause is the next
//! one taken from the store. Sleeping, rendering and pushing messages to the
//! overlay clients are the caller's work; the scheduler says which of these
//! comes next. A burst of events waits in the store meanwhile.

use crate::messages::DisplayMessage;
use crate::queues::{Queues, QueuesModel};
use vstd::prelude::*;

verus! {

/// Pause before the store is looked at again when it had nothing to show,
/// unless configured otherwise.
pub const POLL_INTERVAL_MS: u64 = 500;

/// Pause between clearing one event and showing the next, unless
/// configured otherwise.
pub const INTER_EVENT_PAUSE_MS: u64 = 500;

/// The scheduler's timing, in milliseconds.
#[derive(Clone, Copy, Debug, PartialEq, Eq, Structural)]
pub struct SchedulerConfig {
    /// Pause before the store is looked at again when the fan-out is paused
    /// or no event is pending.
    pub poll_interval_ms: u64,
    /// Pause between clearing one event and showing the next.
    pub inter_event_pause_ms: u64,
}

impl SchedulerConfig {
    /// Half a second for either pause.
    pub fn standard() -> (config: SchedulerConfig)
        ensures
            config.poll_interval_ms == POLL_INTERVAL_MS,
            config.inter_event_pause_ms == INTER_EVENT_PAUSE_MS,
    {
        SchedulerConfig {
            poll_interval_ms: POLL_INTERVAL_MS,
            inter_event_pause_ms: INTER_EVENT_PAUSE_MS,
        }
    }
}

/// Where the scheduler stands in the display of one event.
#[derive(Clone, Copy, Debug, PartialEq, Eq, Structural)]
pub enum Phase {
    /// Nothing is on screen; the next event may be shown.
    Idle,
    /// An event has just been shown; it stays for this many milliseconds.
    Shown(u64),
    /// The display time is over; the event is still on screen.
    Expired,
    /// The event has been cleared; the pause before the next one is due.
    Cleared,
}

/// What the caller is to do next.
#[derive(Debug, PartialEq, Eq)]
pub enum SchedulerAction {
    /// Sleep for this many milliseconds.
    Wait(u64),
    /// Render the event and push it to every overlay client.
    Show(DisplayMessage),
    /// Push the message that clears the screen to every overlay client.
    Clear,
}

/// The display time of `event` as the scheduler waits for it.
pub open spec fn display_ms(event: DisplayMessage) -> u64 {
    event.display_time as u64
}

/// The action that follows from `phase`, given what the store holds.
pub open spec fn spec_action(
    phase: Phase,
    config: SchedulerConfig,
    store: QueuesModel,
) -> SchedulerAction {
    match phase {
        Phase::Idle => match store.next() {
            Some(event) => SchedulerAction::Show(event),
            None => SchedulerAction::Wait(config.poll_interval_ms),
        },
        Phase::Shown(ms) => SchedulerAction::Wait(ms),
        Phase::Expired => SchedulerAction::Clear,
        Phase::Cleared => SchedulerAction::Wait(config.inter_event_pause_ms),
    }
}

/// The phase that follows `phase`, given what the store holds.
pub open spec fn spec_phase(phase: Phase, store: QueuesModel) -> Phase {
    match phase {
        Phase::Idle => match store.next() {
            Some(event) => Phase::Shown(display_ms(event)),
            None => Phase::Idle,
        },
        Phase::Shown(_) => Phase::Expired,
        Phase::Expired => Phase::Cleared,
        Phase::Cleared => Phase::Idle,
    }
}

/// The store after a step from `phase`: only a step that shows an event
/// takes one out.
pub open spec fn spec_store(phase: Phase, store: QueuesModel) -> QueuesModel {
    match phase {
        Phase::Idle => store.pop(),
        _ => store,
    }
}

/// The broadcast scheduler.
pub struct BroadcastScheduler {
    phase: Phase,
    config: SchedulerConfig,
}

impl BroadcastScheduler {
    /// A scheduler with nothing on screen.
    pub fn new(config: SchedulerConfig) -> (scheduler: BroadcastScheduler)
        ensures
            scheduler.phase() == Phase::Idle,
            scheduler.config() == config,
    {
        BroadcastScheduler { phase: Phase::Idle, config }
    }

    /// Where the scheduler stands.
    #[verifier::when_used_as_spec(spec_phase_of)]
    pub fn phase(&self) -> (phase: Phase)
        ensures
            phase == self.phase(),
    {
        self.phase
    }

    /// The scheduler's timing.
    #[verifier::when_used_as_spec(spec_config_of)]
    pub fn config(&self) -> (config: SchedulerConfig)
        ensures
            config == self.config(),
    {
        self.config
    }

    pub closed spec fn spec_phase_of(&self) -> Phase {
        self.phase
    }

    pub closed spec fn spec_config_of(&self) -> SchedulerConfig {
        self.config
    }

    /// Decides the next step. With nothing on screen, the oldest pending
    /// event is taken from the store and shown; if the fan-out is paused or
    /// nothing is pending, the step is a pause, after which the store is
    /// looked at again. Once an event is shown, the steps that follow are
    /// its display time, the clearing of the screen and the pause between
    /// events, whatever arrives in the store meanwhile.
    pub fn next_action(&mut self, queues: &mut Queues) -> (action: SchedulerAction)
        ensures
            action == spec_action(old(self).phase(), old(self).config(), old(queues)@),
            final(self).phase() == spec_phase(old(self).phase(), old(queues)@),
            final(self).config() == old(self).config(),
            final(queues)@ == spec_store(old(self).phase(), old(queues)@),
            final(queues).wf() == old(queues).wf(),
    {
        match self.phase {
            Phase::Idle => match queues.next_event() {
                Some(event) => {
                    self.phase = Phase::Shown(event.display_time as u64);
                    SchedulerAction::Show(event)
                },
                None => SchedulerAction::Wait(self.config.poll_interval_ms),
            },
            Phase::Shown(ms) => {
                self.phase = Phase::Expired;
                SchedulerAction::Wait(ms)
            },
            Phase::Expired => {
                self.phase = Phase::Cleared;
                SchedulerAction::Clear
            },
            Phase::Cleared => {
                self.phase = Phase::Idle;
                SchedulerAction::Wait(self.config.inter_event_pause_ms)
            },
        }
    }
}

/// An event is shown only when nothing is on screen.
pub proof fn lemma_show_only_when_idle(phase: Phase, config: SchedulerConfig, store: QueuesModel)
    ensures
        spec_action(phase, config, store) is Show ==> phase == Phase::Idle,
        spec_action(phase, config, store) is Clear <==> phase == Phase::Expired,
{
}

/// Once `event` is shown, it runs its course: the three steps that follow
/// are a wait of the event's display time, the clearing of the screen, and
/// the pause between events, whatever the store holds at each of them; none
/// of them touches the store, and after them the screen is free again.
pub proof fn lemma_shown_event_runs_its_course(
    config: SchedulerConfig,
    store: QueuesModel,
    first: QueuesModel,
    second: QueuesModel,
    third: QueuesModel,
)
    requires
        store.next() is Some,
    ensures
        ({
            let event = store.next()->Some_0;
            let shown = spec_phase(Phase::Idle, store);
            let expired = spec_phase(shown, first);
            let cleared = spec_phase(expired, second);
            &&& spec_action(Phase::Idle, config, store) == SchedulerAction::Show(event)
            &&& spec_action(shown, config, first) == SchedulerAction::Wait(display_ms(event))
            &&& spec_action(expired, config, second) == SchedulerAction::Clear
            &&& spec_action(cleared, config, third) == SchedulerAction::Wait(
                config.inter_event_pause_ms,
            )
            &&& spec_store(shown, first) == first
            &&& spec_store(expired, second) == second
            &&& spec_store(cleared, third) == third
            &&& spec_phase(cleared, third) == Phase::Idle
        }),
{
}

/// While the fan-out is paused or nothing is pending, an idle scheduler
/// only waits: nothing is shown and nothing leaves the store.
pub proof fn lemma_idle_waits(config: SchedulerConfig, store: QueuesModel)
    requires
        !store.active || store.pending.len() == 0,
    ensures
        spec_action(Phase::Idle, config, store) == SchedulerAction::Wait(config.poll_interval_ms),
        spec_phase(Phase::Idle, store) == Phase::Idle,
        spec_store(Phase::Idle, store) == store,
{
}

} // verus!
