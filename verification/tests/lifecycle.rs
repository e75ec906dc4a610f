use fks_execution::lifecycle::{
    step, Action, Event, Phase, ShutdownTrigger, StartupError, DEFAULT_LISTEN, IDLE_SLEEP_SECS,
};

fn all_events() -> Vec<Event> {
    vec![
        Event::AddressParsed,
        Event::AddressRejected,
        Event::ListenerBound,
        Event::BindFailed,
        Event::ServerStopped { failed: false },
        Event::ServerStopped { failed: true },
        Event::ShutdownSignal(ShutdownTrigger::Interrupt),
        Event::ShutdownSignal(ShutdownTrigger::Terminate),
        Event::IdleWake,
    ]
}

fn run(mut phase: Phase, events: &[Event]) -> Phase {
    for event in events {
        phase = step(phase, *event).0;
    }
    phase
}

#[test]
fn constants_have_their_documented_values() {
    assert_eq!(DEFAULT_LISTEN, "0.0.0.0:4700");
    assert_eq!(IDLE_SLEEP_SECS, 3600);
}

#[test]
fn process_begins_by_parsing_the_address() {
    assert_eq!(Phase::initial(), Phase::Starting);
    assert_eq!(Phase::initial().action(), Action::ParseAddress);
    assert!(!Phase::initial().is_final());
}

#[test]
fn startup_reaches_serving() {
    let (phase, action) = step(Phase::initial(), Event::AddressParsed);
    assert_eq!(phase, Phase::Binding);
    assert_eq!(action, Action::BindListener);
    let (phase, action) = step(phase, Event::ListenerBound);
    assert_eq!(phase, Phase::Serving);
    assert_eq!(action, Action::Serve);
    assert!(!phase.is_final());
}

#[test]
fn rejected_address_ends_the_process() {
    let (phase, action) = step(Phase::Starting, Event::AddressRejected);
    assert_eq!(phase, Phase::Failed(StartupError::AddressRejected));
    assert_eq!(action, Action::Exit(StartupError::AddressRejected));
    assert!(phase.is_final());
}

#[test]
fn failed_bind_ends_the_process() {
    let (phase, action) = step(Phase::Binding, Event::BindFailed);
    assert_eq!(phase, Phase::Failed(StartupError::BindFailed));
    assert_eq!(action, Action::Exit(StartupError::BindFailed));
    assert!(phase.is_final());
}

#[test]
fn terminate_signal_leaves_the_process_resident() {
    let (phase, action) = step(Phase::Serving, Event::ShutdownSignal(ShutdownTrigger::Terminate));
    assert_eq!(phase, Phase::Idle);
    assert_eq!(action, Action::Sleep { secs: 3600 });
    assert!(!phase.is_final());
}

#[test]
fn interrupt_signal_leaves_the_process_resident() {
    let (phase, action) = step(Phase::Serving, Event::ShutdownSignal(ShutdownTrigger::Interrupt));
    assert_eq!(phase, Phase::Idle);
    assert_eq!(action, Action::Sleep { secs: 3600 });
}

#[test]
fn server_end_leaves_the_process_resident() {
    for failed in [false, true] {
        let (phase, action) = step(Phase::Serving, Event::ServerStopped { failed });
        assert_eq!(phase, Phase::Idle);
        assert_eq!(action, Action::Sleep { secs: 3600 });
    }
}

#[test]
fn idle_phase_is_never_left() {
    for first in all_events() {
        for second in all_events() {
            let (phase, action) = step(Phase::Idle, first);
            assert_eq!(phase, Phase::Idle);
            assert_eq!(action, Action::Sleep { secs: IDLE_SLEEP_SECS });
            let (phase, action) = step(phase, second);
            assert_eq!(phase, Phase::Idle);
            assert_eq!(action, Action::Sleep { secs: IDLE_SLEEP_SECS });
        }
    }
}

#[test]
fn failed_phase_is_never_left() {
    for error in [StartupError::AddressRejected, StartupError::BindFailed] {
        for event in all_events() {
            let (phase, action) = step(Phase::Failed(error), event);
            assert_eq!(phase, Phase::Failed(error));
            assert_eq!(action, Action::Exit(error));
        }
    }
}

#[test]
fn unawaited_events_change_nothing() {
    let (phase, action) = step(Phase::Starting, Event::ListenerBound);
    assert_eq!((phase, action), (Phase::Starting, Action::ParseAddress));
    let (phase, action) = step(Phase::Starting, Event::ShutdownSignal(ShutdownTrigger::Terminate));
    assert_eq!((phase, action), (Phase::Starting, Action::ParseAddress));
    let (phase, action) = step(Phase::Binding, Event::AddressRejected);
    assert_eq!((phase, action), (Phase::Binding, Action::BindListener));
    let (phase, action) = step(Phase::Serving, Event::BindFailed);
    assert_eq!((phase, action), (Phase::Serving, Action::Serve));
    let (phase, action) = step(Phase::Serving, Event::IdleWake);
    assert_eq!((phase, action), (Phase::Serving, Action::Serve));
}

#[test]
fn action_follows_from_the_phase() {
    let phases = [
        Phase::Starting,
        Phase::Binding,
        Phase::Serving,
        Phase::Idle,
        Phase::Failed(StartupError::AddressRejected),
        Phase::Failed(StartupError::BindFailed),
    ];
    for phase in phases {
        for event in all_events() {
            let (next, action) = step(phase, event);
            assert_eq!(action, next.action());
        }
    }
}

#[test]
fn whole_life_with_shutdown_never_exits() {
    let events = [
        Event::AddressParsed,
        Event::ListenerBound,
        Event::ShutdownSignal(ShutdownTrigger::Terminate),
        Event::IdleWake,
        Event::IdleWake,
        Event::ShutdownSignal(ShutdownTrigger::Interrupt),
        Event::ServerStopped { failed: true },
        Event::IdleWake,
    ];
    let mut phase = Phase::initial();
    for event in events {
        let (next, action) = step(phase, event);
        assert!(!matches!(action, Action::Exit(_)));
        assert!(!next.is_final());
        phase = next;
    }
    assert_eq!(phase, Phase::Idle);
}

#[test]
fn exit_is_reached_only_through_a_startup_failure() {
    let events = all_events();
    for a in &events {
        for b in &events {
            for c in &events {
                let taken = [*a, *b, *c];
                if run(Phase::initial(), &taken).is_final() {
                    assert!(taken
                        .iter()
                        .any(|e| matches!(e, Event::AddressRejected | Event::BindFailed)));
                }
            }
        }
    }
}
