//! When to run an enforcement pass.
//!
//! The scheduler is a small state machine. It is idle until started, active
//! until stopped, and terminated once shut down. While it is active a pass is
//! due when a foreground change was signalled and the debounce window has
//! passed, or when the watchdog interval has passed with or without a signal.
//! The caller owns the clock and performs the actions; the scheduler only
//! decides.

use vstd::prelude::*;

verus! {

/// Least time between two passes that signals trigger, in milliseconds.
pub const DEBOUNCE_MS: u64 = 50;

/// Longest time an active scheduler lets pass between two polls without
/// asking for a pass, in milliseconds.
pub const WATCHDOG_MS: u64 = 200;

/// Where the scheduler is in its life.
#[derive(Clone, Copy, Debug, PartialEq, Eq, Structural)]
pub enum Phase {
    /// Not governing: polls ask for nothing.
    Idle,
    /// Governing: polls ask for a pass when one is due.
    Active,
    /// Shut down: nothing is asked for any more.
    Terminated,
}

/// What happened. Times are readings of one monotonic clock in milliseconds.
#[derive(Clone, Copy, Debug, PartialEq, Eq, Structural)]
pub enum Event {
    /// The user asked to start governing.
    Start { now_ms: u64 },
    /// The user asked to stop governing.
    Stop,
    /// The list or the mode changed.
    ConfigChanged { now_ms: u64 },
    /// A periodic look at the clock. `signalled` tells whether a foreground
    /// change was notified since the last poll.
    Poll { now_ms: u64, signalled: bool },
    /// The engine is going away.
    Shutdown,
}

/// What the caller has to do in answer to an event.
#[derive(Clone, Copy, Debug, PartialEq, Eq, Structural)]
pub enum Action {
    /// Nothing.
    Nothing,
    /// Run one enforcement pass with this value of the policy's switch.
    Enforce { enabled: bool },
    /// Drain the mute record and unmute what it names.
    Restore,
}

/// The scheduler's state: its phase and the time of the last pass it asked
/// for while active.
#[derive(Clone, Copy, Debug, PartialEq, Eq, Structural)]
pub struct Scheduler {
    pub phase: Phase,
    pub last_pass_ms: u64,
}

/// Time gone by from `last_ms` to `now_ms`; zero if the clock reads earlier
/// than `last_ms`.
pub open spec fn elapsed_ms(last_ms: u64, now_ms: u64) -> int {
    if now_ms >= last_ms {
        now_ms - last_ms
    } else {
        0
    }
}

/// Whether a poll at `now_ms` finds a pass due.
pub open spec fn pass_due(last_ms: u64, now_ms: u64, signalled: bool) -> bool {
    (signalled && elapsed_ms(last_ms, now_ms) >= DEBOUNCE_MS) || elapsed_ms(last_ms, now_ms)
        >= WATCHDOG_MS
}

impl Scheduler {
    /// The action that `event` calls for in state `self`.
    pub open spec fn action_on(self, event: Event) -> Action {
        match (self.phase, event) {
            (Phase::Terminated, _) => Action::Nothing,
            (_, Event::Shutdown) => Action::Restore,
            (Phase::Idle, Event::Start { .. }) => Action::Enforce { enabled: true },
            (Phase::Active, Event::Stop) => Action::Enforce { enabled: false },
            (Phase::Idle, Event::ConfigChanged { .. }) => Action::Enforce { enabled: false },
            (Phase::Active, Event::ConfigChanged { .. }) => Action::Enforce { enabled: true },
            (Phase::Active, Event::Poll { now_ms, signalled }) => if pass_due(
                self.last_pass_ms,
                now_ms,
                signalled,
            ) {
                Action::Enforce { enabled: true }
            } else {
                Action::Nothing
            },
            _ => Action::Nothing,
        }
    }

    /// The state that follows `self` on `event`.
    pub open spec fn state_after(self, event: Event) -> Scheduler {
        match (self.phase, event) {
            (Phase::Terminated, _) => self,
            (_, Event::Shutdown) => Scheduler { phase: Phase::Terminated, ..self },
            (Phase::Idle, Event::Start { now_ms }) => Scheduler {
                phase: Phase::Active,
                last_pass_ms: now_ms,
            },
            (Phase::Active, Event::Stop) => Scheduler { phase: Phase::Idle, ..self },
            (Phase::Active, Event::ConfigChanged { now_ms }) => Scheduler {
                last_pass_ms: now_ms,
                ..self
            },
            (Phase::Active, Event::Poll { now_ms, signalled }) => if pass_due(
                self.last_pass_ms,
                now_ms,
                signalled,
            ) {
                Scheduler { last_pass_ms: now_ms, ..self }
            } else {
                self
            },
            _ => self,
        }
    }

    /// An idle scheduler. `now_ms` is the clock's reading at construction.
    pub fn new(now_ms: u64) -> (scheduler: Scheduler)
        ensures
            scheduler == (Scheduler { phase: Phase::Idle, last_pass_ms: now_ms }),
    {
        Scheduler { phase: Phase::Idle, last_pass_ms: now_ms }
    }

    /// Whether the scheduler is governing.
    pub fn is_running(&self) -> (running: bool)
        ensures
            running == (self.phase == Phase::Active),
    {
        match self.phase {
            Phase::Active => true,
            _ => false,
        }
    }

    /// Takes one event: moves to the next state and says what to do.
    pub fn step(&mut self, event: Event) -> (action: Action)
        ensures
            action == old(self).action_on(event),
            *final(self) == old(self).state_after(event),
    {
        match self.phase {
            Phase::Terminated => Action::Nothing,
            Phase::Idle => match event {
                Event::Shutdown => {
                    self.phase = Phase::Terminated;
                    Action::Restore
                },
                Event::Start { now_ms } => {
                    self.phase = Phase::Active;
                    self.last_pass_ms = now_ms;
                    Action::Enforce { enabled: true }
                },
                Event::ConfigChanged { .. } => Action::Enforce { enabled: false },
                _ => Action::Nothing,
            },
            Phase::Active => match event {
                Event::Shutdown => {
                    self.phase = Phase::Terminated;
                    Action::Restore
                },
                Event::Stop => {
                    self.phase = Phase::Idle;
                    Action::Enforce { enabled: false }
                },
                Event::ConfigChanged { now_ms } => {
                    self.last_pass_ms = now_ms;
                    Action::Enforce { enabled: true }
                },
                Event::Poll { now_ms, signalled } => {
                    let elapsed: u64 = if now_ms >= self.last_pass_ms {
                        now_ms - self.last_pass_ms
                    } else {
                        0
                    };
                    if (signalled && elapsed >= DEBOUNCE_MS) || elapsed >= WATCHDOG_MS {
                        self.last_pass_ms = now_ms;
                        Action::Enforce { enabled: true }
                    } else {
                        Action::Nothing
                    }
                },
                Event::Start { .. } => Action::Nothing,
            },
        }
    }
}

/// The watchdog bound: an active scheduler that is polled once the watchdog
/// interval has passed since its last pass asks for a pass, signal or not.
pub proof fn lemma_watchdog_forces_pass(s: Scheduler, now_ms: u64, signalled: bool)
    requires
        s.phase == Phase::Active,
        now_ms - s.last_pass_ms >= WATCHDOG_MS,
    ensures
        s.action_on(Event::Poll { now_ms, signalled }) == (Action::Enforce { enabled: true }),
        s.state_after(Event::Poll { now_ms, signalled }).last_pass_ms == now_ms,
{
}

/// The debounce window: a poll asks for a pass only of an active scheduler
/// and only once the window has passed since the last pass; before the
/// watchdog interval has passed it does so only on a signal.
pub proof fn lemma_debounce_spaces_passes(s: Scheduler, now_ms: u64, signalled: bool)
    requires
        s.action_on(Event::Poll { now_ms, signalled }) != Action::Nothing,
    ensures
        s.phase == Phase::Active,
        s.action_on(Event::Poll { now_ms, signalled }) == (Action::Enforce { enabled: true }),
        now_ms - s.last_pass_ms >= DEBOUNCE_MS,
        now_ms - s.last_pass_ms < WATCHDOG_MS ==> signalled,
{
}

/// A signal that arrives inside the debounce window causes no pass of its own.
pub proof fn lemma_signal_in_window_is_deferred(s: Scheduler, now_ms: u64)
    requires
        elapsed_ms(s.last_pass_ms, now_ms) < DEBOUNCE_MS,
    ensures
        s.action_on(Event::Poll { now_ms, signalled: true }) == Action::Nothing,
        s.state_after(Event::Poll { now_ms, signalled: true }) == s,
{
}

/// Stopping an active scheduler asks for exactly one pass with the policy
/// switched off and leaves the scheduler idle.
pub proof fn lemma_stop_unmutes(s: Scheduler)
    requires
        s.phase == Phase::Active,
    ensures
        s.action_on(Event::Stop) == (Action::Enforce { enabled: false }),
        s.state_after(Event::Stop).phase == Phase::Idle,
{
}

/// The restore is asked for exactly when the scheduler terminates, so at most
/// once: a terminated scheduler stays as it is and asks for nothing.
pub proof fn lemma_restore_at_most_once(s: Scheduler, event: Event)
    ensures
        s.action_on(event) == Action::Restore <==> (s.phase != Phase::Terminated && event
            == Event::Shutdown),
        s.action_on(event) == Action::Restore <==> (s.phase != Phase::Terminated && s.state_after(
            event,
        ).phase == Phase::Terminated),
        s.phase == Phase::Terminated ==> s.state_after(event) == s && s.action_on(event)
            == Action::Nothing,
{
}

/// A pass with the policy switched on is asked for only by a scheduler that
/// is active afterwards.
pub proof fn lemma_enforcing_only_while_active(s: Scheduler, event: Event)
    requires
        s.action_on(event) == (Action::Enforce { enabled: true }),
    ensures
        s.state_after(event).phase == Phase::Active,
{
}

} // verus!
