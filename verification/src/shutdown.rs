//! The shutdown coordinator: which event ends the daemon, and the one-way
//! lifecycle that releases the socket and the backend exactly once.

use vstd::prelude::*;

verus! {

/// Milliseconds between two looks of the coordinator at the daemon's parts.
pub const POLL_INTERVAL_MILLIS: u64 = 100;

/// Why the daemon stopped.
#[derive(Clone, Copy, Debug, PartialEq, Eq, Structural)]
pub enum ShutdownOutcome {
    /// An interrupt or a termination signal arrived.
    Signaled,
    /// A client sent `kill` and the control channel left its loop normally.
    ClientKill,
    /// The backend process is gone, or its liveness could not be checked.
    BackendCrashed,
    /// The rotation scheduler, which is meant to run forever, has ended.
    SchedulerFailed,
    /// The control channel ended with a failure.
    ChannelFailed,
}

impl ShutdownOutcome {
    /// Graceful outcomes are the requested ones: a signal or an explicit kill.
    pub open spec fn graceful(self) -> bool {
        self is Signaled || self is ClientKill
    }

    /// The process status that goes with the outcome.
    pub open spec fn status(self) -> int {
        if self.graceful() {
            0
        } else {
            1
        }
    }

    /// Whether the daemon was asked to stop, as opposed to failing.
    pub fn is_graceful(&self) -> (g: bool)
        ensures
            g == self.graceful(),
    {
        match self {
            ShutdownOutcome::Signaled => true,
            ShutdownOutcome::ClientKill => true,
            ShutdownOutcome::BackendCrashed => false,
            ShutdownOutcome::SchedulerFailed => false,
            ShutdownOutcome::ChannelFailed => false,
        }
    }

    /// The status the process exits with: zero for a graceful outcome, one
    /// for a fatal one.
    pub fn exit_code(&self) -> (code: i32)
        ensures
            code == self.status(),
    {
        if self.is_graceful() {
            0
        } else {
            1
        }
    }
}

/// What a non-blocking liveness check says of the backend process.
#[derive(Clone, Copy, Debug, PartialEq, Eq, Structural)]
pub enum BackendStatus {
    /// Still running.
    Alive,
    /// It has exited, with whatever status.
    Exited,
    /// The check itself failed.
    Unknown,
}

/// What is known of a spawned task at one poll.
#[derive(Clone, Copy, Debug, PartialEq, Eq, Structural)]
pub enum TaskStatus {
    /// Not finished yet.
    Running,
    /// Finished and returned normally.
    Finished,
    /// Finished with an error, or panicked.
    Failed,
}

/// One look at everything the coordinator races against.
#[derive(Clone, Copy, Debug, PartialEq, Eq, Structural)]
pub struct Observation {
    /// The interrupt listener has fired.
    pub interrupted: bool,
    /// The termination-signal listener has fired.
    pub terminated: bool,
    /// Liveness of the backend process.
    pub backend: BackendStatus,
    /// State of the control-channel task.
    pub channel: TaskStatus,
    /// State of the rotation-scheduler task.
    pub scheduler: TaskStatus,
}

impl Observation {
    /// The observation of a healthy daemon: nothing has happened.
    pub open spec fn quiet() -> Observation {
        Observation {
            interrupted: false,
            terminated: false,
            backend: BackendStatus::Alive,
            channel: TaskStatus::Running,
            scheduler: TaskStatus::Running,
        }
    }

    /// An observation in which nothing has happened yet.
    pub fn new() -> (obs: Observation)
        ensures
            obs == Observation::quiet(),
    {
        Observation {
            interrupted: false,
            terminated: false,
            backend: BackendStatus::Alive,
            channel: TaskStatus::Running,
            scheduler: TaskStatus::Running,
        }
    }
}

/// The outcome that an observation decides, if any. Conditions that first
/// show in the same observation are told apart in a fixed order: signals,
/// then the backend, then the control channel, then the scheduler.
pub open spec fn verdict(obs: Observation) -> Option<ShutdownOutcome> {
    if obs.interrupted || obs.terminated {
        Some(ShutdownOutcome::Signaled)
    } else if obs.backend != BackendStatus::Alive {
        Some(ShutdownOutcome::BackendCrashed)
    } else if obs.channel == TaskStatus::Finished {
        Some(ShutdownOutcome::ClientKill)
    } else if obs.channel == TaskStatus::Failed {
        Some(ShutdownOutcome::ChannelFailed)
    } else if obs.scheduler != TaskStatus::Running {
        Some(ShutdownOutcome::SchedulerFailed)
    } else {
        None
    }
}

/// Decides whether an observation ends the daemon, and how.
pub fn assess(obs: &Observation) -> (outcome: Option<ShutdownOutcome>)
    ensures
        outcome == verdict(*obs),
{
    if obs.interrupted || obs.terminated {
        return Some(ShutdownOutcome::Signaled);
    }
    match obs.backend {
        BackendStatus::Alive => {},
        _ => {
            return Some(ShutdownOutcome::BackendCrashed);
        },
    }
    match obs.channel {
        TaskStatus::Finished => {
            return Some(ShutdownOutcome::ClientKill);
        },
        TaskStatus::Failed => {
            return Some(ShutdownOutcome::ChannelFailed);
        },
        TaskStatus::Running => {},
    }
    match obs.scheduler {
        TaskStatus::Running => None,
        _ => Some(ShutdownOutcome::SchedulerFailed),
    }
}

/// The four phases of the daemon's life, in the order they are passed.
#[derive(Clone, Copy, Debug, PartialEq, Eq, Structural)]
pub enum Phase {
    /// The backend is being spawned, the files scanned, the tasks launched.
    Starting,
    /// Everything runs; the coordinator polls.
    Running,
    /// An outcome is decided; tasks that still run are being cancelled.
    Terminating,
    /// The backend is killed and the socket file removed.
    Terminated,
}

impl Phase {
    /// The position of the phase in the lifecycle.
    pub open spec fn rank(self) -> nat {
        match self {
            Phase::Starting => 0,
            Phase::Running => 1,
            Phase::Terminating => 2,
            Phase::Terminated => 3,
        }
    }
}

/// The coordinator's state. The outcome is part of the two final phases, so
/// a decided daemon always knows why it stops, and an undecided one never
/// claims to.
#[derive(Clone, Copy, Debug, PartialEq, Eq, Structural)]
pub enum Coordinator {
    /// Nothing is launched yet.
    Starting,
    /// All parts run and are being watched.
    Running,
    /// The outcome is decided, the remaining tasks are not stopped yet.
    Terminating(ShutdownOutcome),
    /// All is released.
    Terminated(ShutdownOutcome),
}

/// What the host reports to the coordinator.
#[derive(Clone, Copy, Debug, PartialEq, Eq, Structural)]
pub enum Event {
    /// Backend, file list and both tasks are up.
    Launched,
    /// One poll of signals, backend and tasks.
    Observed(Observation),
    /// Every task that was still running has been cancelled.
    TasksStopped,
}

/// What the coordinator asks of the host in answer to an event.
#[derive(Clone, Copy, Debug, PartialEq, Eq, Structural)]
pub enum Directive {
    /// Wait one poll interval and observe again.
    Poll,
    /// Cancel every task that is still running, whichever caused the end.
    StopTasks,
    /// Kill the backend, remove the socket file, and exit with the status
    /// of the outcome.
    Release(ShutdownOutcome),
    /// The event does not apply in this phase; nothing is to be done.
    Ignore,
}

/// The transition relation of the coordinator, as a function.
pub open spec fn next(state: Coordinator, event: Event) -> (Coordinator, Directive) {
    match (state, event) {
        (Coordinator::Starting, Event::Launched) => (Coordinator::Running, Directive::Poll),
        (Coordinator::Running, Event::Observed(obs)) => match verdict(obs) {
            Some(outcome) => (Coordinator::Terminating(outcome), Directive::StopTasks),
            None => (Coordinator::Running, Directive::Poll),
        },
        (Coordinator::Terminating(outcome), Event::TasksStopped) => (
            Coordinator::Terminated(outcome),
            Directive::Release(outcome),
        ),
        _ => (state, Directive::Ignore),
    }
}

impl Coordinator {
    /// The phase the coordinator is in.
    pub open spec fn phase_of(self) -> Phase {
        match self {
            Coordinator::Starting => Phase::Starting,
            Coordinator::Running => Phase::Running,
            Coordinator::Terminating(_) => Phase::Terminating,
            Coordinator::Terminated(_) => Phase::Terminated,
        }
    }

    /// The recorded outcome, present from `Terminating` on.
    pub open spec fn outcome_of(self) -> Option<ShutdownOutcome> {
        match self {
            Coordinator::Starting => None,
            Coordinator::Running => None,
            Coordinator::Terminating(outcome) => Some(outcome),
            Coordinator::Terminated(outcome) => Some(outcome),
        }
    }

    /// A coordinator before anything is launched.
    pub fn new() -> (c: Coordinator)
        ensures
            c == Coordinator::Starting,
    {
        Coordinator::Starting
    }

    /// The current phase.
    pub fn phase(&self) -> (p: Phase)
        ensures
            p == self.phase_of(),
    {
        match self {
            Coordinator::Starting => Phase::Starting,
            Coordinator::Running => Phase::Running,
            Coordinator::Terminating(_) => Phase::Terminating,
            Coordinator::Terminated(_) => Phase::Terminated,
        }
    }

    /// The outcome, once one is decided.
    pub fn outcome(&self) -> (o: Option<ShutdownOutcome>)
        ensures
            o == self.outcome_of(),
    {
        match self {
            Coordinator::Starting => None,
            Coordinator::Running => None,
            Coordinator::Terminating(outcome) => Some(*outcome),
            Coordinator::Terminated(outcome) => Some(*outcome),
        }
    }

    /// Takes one event, moves to the next state and says what the host is to
    /// do. An event that does not belong to the current phase changes
    /// nothing.
    pub fn step(&mut self, event: Event) -> (directive: Directive)
        ensures
            (*final(self), directive) == next(*old(self), event),
    {
        match (*self, event) {
            (Coordinator::Starting, Event::Launched) => {
                *self = Coordinator::Running;
                Directive::Poll
            },
            (Coordinator::Running, Event::Observed(obs)) => {
                match assess(&obs) {
                    Some(outcome) => {
                        *self = Coordinator::Terminating(outcome);
                        Directive::StopTasks
                    },
                    None => Directive::Poll,
                }
            },
            (Coordinator::Terminating(outcome), Event::TasksStopped) => {
                *self = Coordinator::Terminated(outcome);
                Directive::Release(outcome)
            },
            _ => Directive::Ignore,
        }
    }
}

/// The state reached from `state` after the events, taken in order.
pub open spec fn run(state: Coordinator, events: Seq<Event>) -> Coordinator
    decreases events.len(),
{
    if events.len() == 0 {
        state
    } else {
        next(run(state, events.drop_last()), events.last()).0
    }
}

/// How many times the host is told to release while the events are taken.
pub open spec fn releases(state: Coordinator, events: Seq<Event>) -> nat
    decreases events.len(),
{
    if events.len() == 0 {
        0
    } else {
        let earlier = events.drop_last();
        let told = next(run(state, earlier), events.last()).1;
        releases(state, earlier) + if told is Release {
            1nat
        } else {
            0nat
        }
    }
}

/// Every transition is one-way: no sequence of events brings the
/// coordinator back to an earlier phase.
pub proof fn lemma_phases_never_go_back(state: Coordinator, events: Seq<Event>)
    ensures
        state.phase_of().rank() <= run(state, events).phase_of().rank(),
    decreases events.len(),
{
    if events.len() > 0 {
        lemma_phases_never_go_back(state, events.drop_last());
    }
}

/// The first decided outcome wins: once an outcome is recorded, no later
/// event replaces or removes it.
pub proof fn lemma_outcome_is_final(state: Coordinator, events: Seq<Event>)
    requires
        state.outcome_of() is Some,
    ensures
        run(state, events).outcome_of() == state.outcome_of(),
    decreases events.len(),
{
    if events.len() > 0 {
        lemma_outcome_is_final(state, events.drop_last());
    }
}

/// Whether the event is an observation that decides this outcome.
pub open spec fn decides(event: Event, outcome: ShutdownOutcome) -> bool {
    match event {
        Event::Observed(obs) => verdict(obs) == Some(outcome),
        _ => false,
    }
}

/// An outcome is recorded only for a reason that was observed: the state
/// after a run from `Starting` carries an outcome only if one of the
/// observations in the run decides that outcome.
pub proof fn lemma_outcome_was_observed(events: Seq<Event>)
    ensures
        match run(Coordinator::Starting, events).outcome_of() {
            Some(outcome) => exists|i: int|
                0 <= i < events.len() && #[trigger] decides(events[i], outcome),
            None => true,
        },
    decreases events.len(),
{
    if events.len() > 0 {
        let earlier = events.drop_last();
        lemma_outcome_was_observed(earlier);
        let before = run(Coordinator::Starting, earlier);
        match before.outcome_of() {
            Some(outcome) => {
                let i = choose|i: int|
                    0 <= i < earlier.len() && #[trigger] decides(earlier[i], outcome);
                assert(decides(events[i], outcome));
            },
            None => {
                if let Some(outcome) = run(Coordinator::Starting, events).outcome_of() {
                    assert(decides(events[events.len() - 1], outcome));
                }
            },
        }
    }
}

/// The socket and the backend are released exactly once on the way to
/// `Terminated`, and never otherwise: in any run that starts before
/// `Terminated`, the host is told to release once if the run ends in
/// `Terminated`, and not at all if it does not.
pub proof fn lemma_released_exactly_once(state: Coordinator, events: Seq<Event>)
    requires
        !(state is Terminated),
    ensures
        releases(state, events) == if run(state, events) is Terminated {
            1nat
        } else {
            0nat
        },
    decreases events.len(),
{
    if events.len() > 0 {
        lemma_released_exactly_once(state, events.drop_last());
    }
}

/// After `Terminated` nothing is released again.
pub proof fn lemma_nothing_after_terminated(state: Coordinator, events: Seq<Event>)
    requires
        state is Terminated,
    ensures
        run(state, events) == state,
        releases(state, events) == 0,
    decreases events.len(),
{
    if events.len() > 0 {
        lemma_nothing_after_terminated(state, events.drop_last());
    }
}

/// `Terminated` is entered only through a release, and the release names
/// the outcome that was decided: graceful or fatal, every end takes the same
/// way out.
pub proof fn lemma_release_carries_the_outcome(state: Coordinator, event: Event)
    ensures
        match next(state, event).1 {
            Directive::Release(outcome) => state == Coordinator::Terminating(outcome) && next(
                state,
                event,
            ).0 == Coordinator::Terminated(outcome),
            _ => next(state, event).0 is Terminated ==> state is Terminated,
        },
{
}

/// What the coordinator goes through once an observation has decided the
/// end: the observation itself, then the report that the tasks are stopped.
pub open spec fn shutdown_events(obs: Observation) -> Seq<Event> {
    seq![Event::Observed(obs), Event::TasksStopped]
}

/// Cleanup is unconditional: whatever an observation decides, signal, kill
/// or failure, the running coordinator goes on to `Terminated` with that
/// outcome and tells the host to release exactly once.
pub proof fn lemma_every_end_is_released(obs: Observation)
    requires
        verdict(obs) is Some,
    ensures
        run(Coordinator::Running, shutdown_events(obs)) == Coordinator::Terminated(
            verdict(obs)->0,
        ),
        releases(Coordinator::Running, shutdown_events(obs)) == 1,
{
    let events = shutdown_events(obs);
    let first = events.drop_last();
    assert(first =~= seq![Event::Observed(obs)]);
    assert(run(Coordinator::Running, first.drop_last()) == Coordinator::Running);
    lemma_released_exactly_once(Coordinator::Running, events);
}

} // verus!
