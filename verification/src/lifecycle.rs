//! The process lifecycle as a state machine.
//!
//! The driver performs the [`Action`] of the current [`Phase`], reports what
//! happened as an [`Event`], and asks [`step`] what to do next. Start-up can
//! fail and end the process with an error; once the listener is bound, nothing
//! ends the process any more: when serving stops, for whatever reason, the
//! process stays resident and sleeps.

use vstd::prelude::*;

verus! {

/// Seconds that the resident process sleeps between wake-ups once serving has ended.
pub const IDLE_SLEEP_SECS: u64 = 3600;

/// The listen address used when none is given on the command line.
pub const DEFAULT_LISTEN: &'static str = "0.0.0.0:4700";

/// A process signal that asks for a graceful shutdown.
#[derive(Clone, Copy, Debug, PartialEq, Eq, Structural)]
pub enum ShutdownTrigger {
    /// An interrupt from the terminal.
    Interrupt,
    /// A request to terminate.
    Terminate,
}

/// Why start-up failed.
#[derive(Clone, Copy, Debug, PartialEq, Eq, Structural)]
pub enum StartupError {
    /// The listen address is not a socket address.
    AddressRejected,
    /// The listener could not be bound to the address.
    BindFailed,
}

/// Where the process stands.
#[derive(Clone, Copy, Debug, PartialEq, Eq, Structural)]
pub enum Phase {
    /// The listen address is still to be parsed.
    Starting,
    /// The address is known; the listener is still to be bound.
    Binding,
    /// The listener is bound and requests are served.
    Serving,
    /// Serving has ended; the process stays resident.
    Idle,
    /// Start-up failed; the process ends with an error.
    Failed(StartupError),
}

/// What the driver reports back.
#[derive(Clone, Copy, Debug, PartialEq, Eq, Structural)]
pub enum Event {
    /// The listen address was parsed.
    AddressParsed,
    /// The listen address could not be parsed.
    AddressRejected,
    /// The listener was bound.
    ListenerBound,
    /// The listener could not be bound.
    BindFailed,
    /// The server task ended by itself, with or without an error.
    ServerStopped { failed: bool },
    /// A shutdown signal arrived before the server task ended.
    ShutdownSignal(ShutdownTrigger),
    /// An idle sleep ran out.
    IdleWake,
}

/// What the driver is to do.
#[derive(Clone, Copy, Debug, PartialEq, Eq, Structural)]
pub enum Action {
    /// Parse the listen address.
    ParseAddress,
    /// Bind the listener.
    BindListener,
    /// Serve requests until the server task ends or a shutdown signal arrives,
    /// whichever comes first.
    Serve,
    /// Sleep for the given number of seconds.
    Sleep { secs: u64 },
    /// End the process with a non-zero status.
    Exit(StartupError),
}

/// The phase that follows `phase` on `event`. An event that the phase does not
/// await leaves it as it is.
pub open spec fn next_phase(phase: Phase, event: Event) -> Phase {
    match (phase, event) {
        (Phase::Starting, Event::AddressParsed) => Phase::Binding,
        (Phase::Starting, Event::AddressRejected) => Phase::Failed(StartupError::AddressRejected),
        (Phase::Binding, Event::ListenerBound) => Phase::Serving,
        (Phase::Binding, Event::BindFailed) => Phase::Failed(StartupError::BindFailed),
        (Phase::Serving, Event::ServerStopped { .. }) => Phase::Idle,
        (Phase::Serving, Event::ShutdownSignal(_)) => Phase::Idle,
        _ => phase,
    }
}

/// What the driver does while the process is in `phase`.
pub open spec fn action_in(phase: Phase) -> Action {
    match phase {
        Phase::Starting => Action::ParseAddress,
        Phase::Binding => Action::BindListener,
        Phase::Serving => Action::Serve,
        Phase::Idle => Action::Sleep { secs: IDLE_SLEEP_SECS },
        Phase::Failed(error) => Action::Exit(error),
    }
}

/// The phase reached from `phase` after `events`, taken in order.
pub open spec fn run(phase: Phase, events: Seq<Event>) -> Phase
    decreases events.len(),
{
    if events.len() == 0 {
        phase
    } else {
        next_phase(run(phase, events.drop_last()), events.last())
    }
}

/// Whether `event` reports a failure of start-up.
pub open spec fn is_startup_failure(event: Event) -> bool {
    event is AddressRejected || event is BindFailed
}

impl Phase {
    /// The phase in which every process begins.
    pub fn initial() -> (phase: Phase)
        ensures
            phase == Phase::Starting,
    {
        Phase::Starting
    }

    /// What the driver does while the process is in this phase.
    pub fn action(self) -> (action: Action)
        ensures
            action == action_in(self),
    {
        match self {
            Phase::Starting => Action::ParseAddress,
            Phase::Binding => Action::BindListener,
            Phase::Serving => Action::Serve,
            Phase::Idle => Action::Sleep { secs: IDLE_SLEEP_SECS },
            Phase::Failed(error) => Action::Exit(error),
        }
    }

    /// Whether the process ends in this phase.
    pub fn is_final(self) -> (ended: bool)
        ensures
            ended == (self is Failed),
            ended == (action_in(self) is Exit),
    {
        match self {
            Phase::Failed(_) => true,
            _ => false,
        }
    }
}

/// Takes one event in: returns the next phase and what the driver does in it.
pub fn step(phase: Phase, event: Event) -> (next: (Phase, Action))
    ensures
        next.0 == next_phase(phase, event),
        next.1 == action_in(next.0),
{
    let after = match phase {
        Phase::Starting => match event {
            Event::AddressParsed => Phase::Binding,
            Event::AddressRejected => Phase::Failed(StartupError::AddressRejected),
            _ => phase,
        },
        Phase::Binding => match event {
            Event::ListenerBound => Phase::Serving,
            Event::BindFailed => Phase::Failed(StartupError::BindFailed),
            _ => phase,
        },
        Phase::Serving => match event {
            Event::ServerStopped { .. } => Phase::Idle,
            Event::ShutdownSignal(_) => Phase::Idle,
            _ => phase,
        },
        Phase::Idle => phase,
        Phase::Failed(_) => phase,
    };
    (after, after.action())
}

/// Once idle, always idle: no sequence of events leads out of the idle phase,
/// and the driver only ever sleeps there.
pub proof fn lemma_idle_is_absorbing(events: Seq<Event>)
    ensures
        run(Phase::Idle, events) == Phase::Idle,
        action_in(run(Phase::Idle, events)) == (Action::Sleep { secs: IDLE_SLEEP_SECS }),
    decreases events.len(),
{
    if events.len() > 0 {
        lemma_idle_is_absorbing(events.drop_last());
    }
}

/// Running `first` and then `rest` is running `rest` from where `first` ended.
pub proof fn lemma_run_concat(phase: Phase, first: Seq<Event>, rest: Seq<Event>)
    ensures
        run(phase, first + rest) == run(run(phase, first), rest),
    decreases rest.len(),
{
    if rest.len() == 0 {
        assert(first + rest =~= first);
    } else {
        lemma_run_concat(phase, first, rest.drop_last());
        assert((first + rest).drop_last() =~= first + rest.drop_last());
        assert((first + rest).last() == rest.last());
    }
}

/// Running a single event is taking one step.
pub proof fn lemma_run_single(phase: Phase, event: Event)
    ensures
        run(phase, seq![event]) == next_phase(phase, event),
{
    let one = seq![event];
    assert(one.drop_last() =~= Seq::<Event>::empty());
    assert(run(phase, one.drop_last()) == phase);
}

/// A shutdown signal while serving does not end the process: whichever signal
/// it was and whatever happens afterwards, the process is idle and sleeps.
pub proof fn lemma_shutdown_keeps_process_resident(trigger: ShutdownTrigger, later: Seq<Event>)
    ensures
        run(Phase::Serving, seq![Event::ShutdownSignal(trigger)] + later) == Phase::Idle,
        !(action_in(run(Phase::Serving, seq![Event::ShutdownSignal(trigger)] + later)) is Exit),
{
    let first = seq![Event::ShutdownSignal(trigger)];
    lemma_run_single(Phase::Serving, Event::ShutdownSignal(trigger));
    lemma_run_concat(Phase::Serving, first, later);
    lemma_idle_is_absorbing(later);
}

/// The end of the server task does not end the process either, with or
/// without an error.
pub proof fn lemma_server_stop_keeps_process_resident(failed: bool, later: Seq<Event>)
    ensures
        run(Phase::Serving, seq![Event::ServerStopped { failed }] + later) == Phase::Idle,
        !(action_in(run(Phase::Serving, seq![Event::ServerStopped { failed }] + later)) is Exit),
{
    let first = seq![Event::ServerStopped { failed }];
    lemma_run_single(Phase::Serving, Event::ServerStopped { failed });
    lemma_run_concat(Phase::Serving, first, later);
    lemma_idle_is_absorbing(later);
}

/// The process ends only where start-up failed: a run that reaches the
/// failed phase holds an event that reports a start-up failure.
pub proof fn lemma_exit_needs_startup_failure(events: Seq<Event>)
    requires
        run(Phase::Starting, events) is Failed,
    ensures
        exists|i: int| 0 <= i < events.len() && is_startup_failure(#[trigger] events[i]),
    decreases events.len(),
{
    if events.len() > 0 {
        let before = run(Phase::Starting, events.drop_last());
        if before is Failed {
            lemma_exit_needs_startup_failure(events.drop_last());
            let i = choose|i: int|
                0 <= i < events.drop_last().len() && is_startup_failure(
                    #[trigger] events.drop_last()[i],
                );
            assert(events[i] == events.drop_last()[i]);
        } else {
            assert(is_startup_failure(events[events.len() - 1]));
        }
    }
}

/// A failed start-up is final: no later event leads out of the failed phase.
pub proof fn lemma_failure_is_final(error: StartupError, events: Seq<Event>)
    ensures
        run(Phase::Failed(error), events) == Phase::Failed(error),
    decreases events.len(),
{
    if events.len() > 0 {
        lemma_failure_is_final(error, events.drop_last());
    }
}

} // verus!
