use silencer::scheduler::{Action, Event, Phase, Scheduler, DEBOUNCE_MS, WATCHDOG_MS};

fn active_since(now_ms: u64) -> Scheduler {
    let mut scheduler = Scheduler::new(0);
    assert_eq!(scheduler.step(Event::Start { now_ms }), Action::Enforce { enabled: true });
    scheduler
}

#[test]
fn intervals() {
    assert_eq!(DEBOUNCE_MS, 50);
    assert_eq!(WATCHDOG_MS, 200);
}

#[test]
fn a_new_scheduler_is_idle() {
    let scheduler = Scheduler::new(123);
    assert_eq!(scheduler.phase, Phase::Idle);
    assert_eq!(scheduler.last_pass_ms, 123);
    assert!(!scheduler.is_running());
}

#[test]
fn an_idle_scheduler_asks_for_nothing_on_polls() {
    let mut scheduler = Scheduler::new(0);
    for now_ms in [0, 49, 50, 199, 200, 10_000, u64::MAX] {
        for signalled in [false, true] {
            assert_eq!(scheduler.step(Event::Poll { now_ms, signalled }), Action::Nothing);
            assert_eq!(scheduler, Scheduler::new(0));
        }
    }
}

#[test]
fn start_activates_and_enforces_at_once() {
    let mut scheduler = Scheduler::new(0);
    assert_eq!(scheduler.step(Event::Start { now_ms: 1000 }), Action::Enforce { enabled: true });
    assert_eq!(scheduler.phase, Phase::Active);
    assert_eq!(scheduler.last_pass_ms, 1000);
    assert!(scheduler.is_running());
}

#[test]
fn start_of_an_active_scheduler_changes_nothing() {
    let mut scheduler = active_since(1000);
    assert_eq!(scheduler.step(Event::Start { now_ms: 5000 }), Action::Nothing);
    assert_eq!(scheduler.last_pass_ms, 1000);
    assert_eq!(scheduler.phase, Phase::Active);
}

#[test]
fn stop_runs_one_pass_with_the_policy_off() {
    let mut scheduler = active_since(1000);
    assert_eq!(scheduler.step(Event::Stop), Action::Enforce { enabled: false });
    assert_eq!(scheduler.phase, Phase::Idle);
    assert_eq!(scheduler.step(Event::Stop), Action::Nothing);
    assert_eq!(scheduler.step(Event::Poll { now_ms: 9000, signalled: true }), Action::Nothing);
}

#[test]
fn a_signal_inside_the_debounce_window_is_deferred() {
    let mut scheduler = active_since(1000);
    for now_ms in [1000, 1001, 1049] {
        assert_eq!(scheduler.step(Event::Poll { now_ms, signalled: true }), Action::Nothing);
        assert_eq!(scheduler.last_pass_ms, 1000);
    }
}

#[test]
fn a_signal_after_the_debounce_window_causes_a_pass() {
    let mut scheduler = active_since(1000);
    assert_eq!(
        scheduler.step(Event::Poll { now_ms: 1050, signalled: true }),
        Action::Enforce { enabled: true }
    );
    assert_eq!(scheduler.last_pass_ms, 1050);
    assert_eq!(scheduler.step(Event::Poll { now_ms: 1099, signalled: true }), Action::Nothing);
    assert_eq!(
        scheduler.step(Event::Poll { now_ms: 1100, signalled: true }),
        Action::Enforce { enabled: true }
    );
}

#[test]
fn without_a_signal_only_the_watchdog_causes_a_pass() {
    let mut scheduler = active_since(1000);
    for now_ms in [1000, 1050, 1100, 1199] {
        assert_eq!(scheduler.step(Event::Poll { now_ms, signalled: false }), Action::Nothing);
    }
    assert_eq!(
        scheduler.step(Event::Poll { now_ms: 1200, signalled: false }),
        Action::Enforce { enabled: true }
    );
    assert_eq!(scheduler.last_pass_ms, 1200);
    assert_eq!(scheduler.step(Event::Poll { now_ms: 1399, signalled: false }), Action::Nothing);
    assert_eq!(
        scheduler.step(Event::Poll { now_ms: 1400, signalled: false }),
        Action::Enforce { enabled: true }
    );
}

#[test]
fn the_watchdog_bounds_the_time_between_passes_under_a_burst_of_signals() {
    let mut scheduler = active_since(0);
    let mut last_pass = 0u64;
    let mut passes = 0;
    for now_ms in (0..=2000u64).step_by(7) {
        let action = scheduler.step(Event::Poll { now_ms, signalled: true });
        if action == (Action::Enforce { enabled: true }) {
            assert!(now_ms - last_pass >= DEBOUNCE_MS);
            assert!(now_ms - last_pass <= WATCHDOG_MS);
            last_pass = now_ms;
            passes += 1;
        } else {
            assert_eq!(action, Action::Nothing);
            assert!(now_ms - last_pass < DEBOUNCE_MS);
        }
    }
    assert_eq!(passes, 35);
}

#[test]
fn a_clock_that_reads_earlier_counts_as_no_time_gone_by() {
    let mut scheduler = active_since(1000);
    assert_eq!(scheduler.step(Event::Poll { now_ms: 10, signalled: true }), Action::Nothing);
    assert_eq!(scheduler.step(Event::Poll { now_ms: 0, signalled: false }), Action::Nothing);
    assert_eq!(scheduler.last_pass_ms, 1000);
}

#[test]
fn times_near_the_end_of_the_clock() {
    let mut scheduler = active_since(u64::MAX - 10);
    assert_eq!(scheduler.step(Event::Poll { now_ms: u64::MAX, signalled: true }), Action::Nothing);
    let mut scheduler = active_since(0);
    assert_eq!(
        scheduler.step(Event::Poll { now_ms: u64::MAX, signalled: false }),
        Action::Enforce { enabled: true }
    );
}

#[test]
fn a_changed_configuration_is_applied_at_once() {
    let mut idle = Scheduler::new(0);
    assert_eq!(idle.step(Event::ConfigChanged { now_ms: 10 }), Action::Enforce { enabled: false });
    assert_eq!(idle, Scheduler::new(0));
    let mut active = active_since(1000);
    assert_eq!(active.step(Event::ConfigChanged { now_ms: 1010 }), Action::Enforce { enabled: true });
    assert_eq!(active.last_pass_ms, 1010);
    assert_eq!(active.step(Event::Poll { now_ms: 1055, signalled: true }), Action::Nothing);
}

#[test]
fn shutdown_restores_once_from_either_phase() {
    let mut idle = Scheduler::new(0);
    assert_eq!(idle.step(Event::Shutdown), Action::Restore);
    assert_eq!(idle.phase, Phase::Terminated);
    assert_eq!(idle.step(Event::Shutdown), Action::Nothing);
    let mut active = active_since(5);
    assert_eq!(active.step(Event::Shutdown), Action::Restore);
    assert_eq!(active.phase, Phase::Terminated);
    assert_eq!(active.step(Event::Shutdown), Action::Nothing);
}

#[test]
fn a_terminated_scheduler_stays_terminated() {
    let mut scheduler = active_since(5);
    scheduler.step(Event::Shutdown);
    let terminated = scheduler;
    let events = [
        Event::Start { now_ms: 9000 },
        Event::Stop,
        Event::ConfigChanged { now_ms: 9000 },
        Event::Poll { now_ms: 9000, signalled: true },
        Event::Poll { now_ms: 9000, signalled: false },
        Event::Shutdown,
    ];
    for event in events {
        assert_eq!(scheduler.step(event), Action::Nothing);
        assert_eq!(scheduler, terminated);
        assert!(!scheduler.is_running());
    }
}

#[test]
fn restart_after_stop() {
    let mut scheduler = active_since(1000);
    scheduler.step(Event::Stop);
    assert_eq!(scheduler.step(Event::Start { now_ms: 3000 }), Action::Enforce { enabled: true });
    assert_eq!(scheduler.last_pass_ms, 3000);
    assert_eq!(scheduler.step(Event::Poll { now_ms: 3049, signalled: true }), Action::Nothing);
    assert_eq!(
        scheduler.step(Event::Poll { now_ms: 3050, signalled: true }),
        Action::Enforce { enabled: true }
    );
}
