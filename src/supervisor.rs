//! The decisions of the backend process supervisor. The host performs each
//! action (probe, locate, launch, settle) and reports back what happened; the
//! supervisor decides what comes next and keeps the lifecycle state.

use vstd::prelude::*;
use vstd::string::*;

verus! {

/// Where the backend stands in its lifecycle.
#[derive(PartialEq, Eq, Structural, Clone, Copy, Debug)]
pub enum Phase {
    NotStarted,
    Starting,
    Running,
    Failed,
}

/// Which step of the start-up sequence is under way.
#[derive(PartialEq, Eq, Structural, Clone, Copy, Debug)]
pub enum Stage {
    Idle,
    Probing,
    Locating,
    Launching,
    Settling,
    Reprobing,
}

/// Why the backend could not be brought up.
#[derive(PartialEq, Eq, Debug)]
pub enum StartupError {
    /// No candidate backend directory exists.
    BackendNotFound,
    /// The backend process could not be spawned.
    LaunchFailed(String),
    /// The backend was launched but did not answer the health probe.
    BackendStartupFailed(String),
}

impl StartupError {
    /// The text that describes the error.
    pub open spec fn message_spec(&self) -> Seq<char> {
        match self {
            StartupError::BackendNotFound => "backend directory not found"@,
            StartupError::LaunchFailed(e) => "failed to start backend: "@ + e@,
            StartupError::BackendStartupFailed(e) => "backend is not responding: "@ + e@,
        }
    }

    /// A description of the error.
    pub fn message(&self) -> (r: String)
        ensures
            r@ == self.message_spec(),
    {
        match self {
            StartupError::BackendNotFound => String::from_str("backend directory not found"),
            StartupError::LaunchFailed(e) => String::from_str("failed to start backend: ").concat(e.as_str()),
            StartupError::BackendStartupFailed(e) => String::from_str("backend is not responding: ").concat(e.as_str()),
        }
    }
}

/// What the host reports to the supervisor.
#[derive(PartialEq, Eq, Debug)]
pub enum SupervisorEvent {
    /// A caller needs the backend running.
    Start,
    /// The health probe got a response.
    ProbeSucceeded,
    /// The health probe got no response; the transport's text.
    ProbeFailed(String),
    /// The index of the first candidate directory that exists, if any.
    Located(Option<usize>),
    /// The backend process was spawned.
    Launched,
    /// The backend process could not be spawned; the reason.
    LaunchFailed(String),
    /// The settle interval after a launch has passed.
    Settled,
}

/// What the supervisor asks the host to do next.
#[derive(PartialEq, Eq, Debug)]
pub enum SupervisorAction {
    /// The backend is reachable: the caller may go on.
    Ready,
    /// Send a health probe to the backend.
    Probe,
    /// Find the first candidate backend directory that exists.
    LocateBackend,
    /// Spawn the backend from a candidate directory, after stopping the
    /// process launched earlier where there is one.
    Launch { candidate: usize, stop_previous: bool },
    /// Wait the settle interval.
    Settle,
    /// The backend could not be brought up.
    Fail(StartupError),
    /// The event does not fit the current step and changes nothing.
    Ignore,
}

/// The lifecycle state that the supervisor keeps.
#[derive(PartialEq, Eq, Structural, Clone, Copy, Debug)]
pub struct SupervisorState {
    pub phase: Phase,
    pub stage: Stage,
    /// The backend has been seen to answer since the last shutdown.
    pub confirmed: bool,
    /// A backend process launched by this supervisor is held.
    pub owns_child: bool,
}

impl SupervisorState {
    /// The state before anything was started.
    pub open spec fn initial() -> SupervisorState {
        SupervisorState { phase: Phase::NotStarted, stage: Stage::Idle, confirmed: false, owns_child: false }
    }

    /// The confirmed flag is set exactly while running; a start-up step is
    /// under way only while starting; a launched process is held from the
    /// launch through the re-probe.
    pub open spec fn wf(self) -> bool {
        &&& self.confirmed <==> self.phase == Phase::Running
        &&& self.stage != Stage::Idle ==> self.phase == Phase::Starting
        &&& (self.stage == Stage::Settling || self.stage == Stage::Reprobing) ==> self.owns_child
    }

    /// The state after a shutdown, and whether a held process must be
    /// terminated.
    pub open spec fn after_shutdown(self) -> (SupervisorState, bool) {
        (SupervisorState::initial(), self.owns_child)
    }

    /// The state after `e`, and what the host is asked to do.
    pub open spec fn next(self, e: SupervisorEvent) -> (SupervisorState, SupervisorAction) {
        let s = self;
        match e {
            SupervisorEvent::Start => if s.stage != Stage::Idle {
                (s, SupervisorAction::Ignore)
            } else if s.confirmed {
                (s, SupervisorAction::Ready)
            } else {
                (SupervisorState { phase: Phase::Starting, stage: Stage::Probing, ..s }, SupervisorAction::Probe)
            },
            SupervisorEvent::ProbeSucceeded => if s.stage == Stage::Probing || s.stage == Stage::Reprobing {
                (SupervisorState { phase: Phase::Running, stage: Stage::Idle, confirmed: true, ..s }, SupervisorAction::Ready)
            } else {
                (s, SupervisorAction::Ignore)
            },
            SupervisorEvent::ProbeFailed(text) => if s.stage == Stage::Probing {
                (SupervisorState { stage: Stage::Locating, ..s }, SupervisorAction::LocateBackend)
            } else if s.stage == Stage::Reprobing {
                (
                    SupervisorState { phase: Phase::Failed, stage: Stage::Idle, ..s },
                    SupervisorAction::Fail(StartupError::BackendStartupFailed(text)),
                )
            } else {
                (s, SupervisorAction::Ignore)
            },
            SupervisorEvent::Located(found) => if s.stage == Stage::Locating {
                match found {
                    Some(i) => (
                        SupervisorState { stage: Stage::Launching, ..s },
                        SupervisorAction::Launch { candidate: i, stop_previous: s.owns_child },
                    ),
                    None => (
                        SupervisorState { phase: Phase::Failed, stage: Stage::Idle, ..s },
                        SupervisorAction::Fail(StartupError::BackendNotFound),
                    ),
                }
            } else {
                (s, SupervisorAction::Ignore)
            },
            SupervisorEvent::Launched => if s.stage == Stage::Launching {
                (SupervisorState { stage: Stage::Settling, owns_child: true, ..s }, SupervisorAction::Settle)
            } else {
                (s, SupervisorAction::Ignore)
            },
            SupervisorEvent::LaunchFailed(text) => if s.stage == Stage::Launching {
                (
                    SupervisorState { phase: Phase::Failed, stage: Stage::Idle, owns_child: false, ..s },
                    SupervisorAction::Fail(StartupError::LaunchFailed(text)),
                )
            } else {
                (s, SupervisorAction::Ignore)
            },
            SupervisorEvent::Settled => if s.stage == Stage::Settling {
                (SupervisorState { stage: Stage::Reprobing, ..s }, SupervisorAction::Probe)
            } else {
                (s, SupervisorAction::Ignore)
            },
        }
    }
}

/// The backend process supervisor.
pub struct Supervisor {
    state: SupervisorState,
}

impl View for Supervisor {
    type V = SupervisorState;

    closed spec fn view(&self) -> SupervisorState {
        self.state
    }
}

impl Supervisor {
    /// A supervisor that has started nothing.
    pub fn new() -> (r: Supervisor)
        ensures
            r@ == SupervisorState::initial(),
            r@.wf(),
    {
        Supervisor {
            state: SupervisorState { phase: Phase::NotStarted, stage: Stage::Idle, confirmed: false, owns_child: false },
        }
    }

    /// The lifecycle phase.
    pub fn phase(&self) -> (r: Phase)
        ensures
            r == self@.phase,
    {
        self.state.phase
    }

    /// Whether the backend has been seen to answer since the last shutdown.
    pub fn is_confirmed(&self) -> (r: bool)
        ensures
            r == self@.confirmed,
    {
        self.state.confirmed
    }

    /// Whether a backend process launched by this supervisor is held.
    pub fn owns_child(&self) -> (r: bool)
        ensures
            r == self@.owns_child,
    {
        self.state.owns_child
    }

    /// Takes in what the host reports and says what to do next.
    pub fn step(&mut self, e: SupervisorEvent) -> (r: SupervisorAction)
        ensures
            (final(self)@, r) == old(self)@.next(e),
            old(self)@.wf() ==> final(self)@.wf(),
    {
        let s = self.state;
        match e {
            SupervisorEvent::Start => if s.stage != Stage::Idle {
                SupervisorAction::Ignore
            } else if s.confirmed {
                SupervisorAction::Ready
            } else {
                self.state = SupervisorState { phase: Phase::Starting, stage: Stage::Probing, ..s };
                SupervisorAction::Probe
            },
            SupervisorEvent::ProbeSucceeded => if s.stage == Stage::Probing || s.stage == Stage::Reprobing {
                self.state = SupervisorState { phase: Phase::Running, stage: Stage::Idle, confirmed: true, ..s };
                SupervisorAction::Ready
            } else {
                SupervisorAction::Ignore
            },
            SupervisorEvent::ProbeFailed(text) => if s.stage == Stage::Probing {
                self.state = SupervisorState { stage: Stage::Locating, ..s };
                SupervisorAction::LocateBackend
            } else if s.stage == Stage::Reprobing {
                self.state = SupervisorState { phase: Phase::Failed, stage: Stage::Idle, ..s };
                SupervisorAction::Fail(StartupError::BackendStartupFailed(text))
            } else {
                SupervisorAction::Ignore
            },
            SupervisorEvent::Located(found) => if s.stage == Stage::Locating {
                match found {
                    Some(i) => {
                        self.state = SupervisorState { stage: Stage::Launching, ..s };
                        SupervisorAction::Launch { candidate: i, stop_previous: s.owns_child }
                    },
                    None => {
                        self.state = SupervisorState { phase: Phase::Failed, stage: Stage::Idle, ..s };
                        SupervisorAction::Fail(StartupError::BackendNotFound)
                    },
                }
            } else {
                SupervisorAction::Ignore
            },
            SupervisorEvent::Launched => if s.stage == Stage::Launching {
                self.state = SupervisorState { stage: Stage::Settling, owns_child: true, ..s };
                SupervisorAction::Settle
            } else {
                SupervisorAction::Ignore
            },
            SupervisorEvent::LaunchFailed(text) => if s.stage == Stage::Launching {
                self.state = SupervisorState { phase: Phase::Failed, stage: Stage::Idle, owns_child: false, ..s };
                SupervisorAction::Fail(StartupError::LaunchFailed(text))
            } else {
                SupervisorAction::Ignore
            },
            SupervisorEvent::Settled => if s.stage == Stage::Settling {
                self.state = SupervisorState { stage: Stage::Reprobing, ..s };
                SupervisorAction::Probe
            } else {
                SupervisorAction::Ignore
            },
        }
    }

    /// Forgets the backend: the result says whether a process launched by
    /// this supervisor is held and must be terminated; afterwards nothing is
    /// held and the phase is back at the start.
    pub fn shutdown(&mut self) -> (r: bool)
        ensures
            (final(self)@, r) == old(self)@.after_shutdown(),
    {
        let held = self.state.owns_child;
        self.state = SupervisorState { phase: Phase::NotStarted, stage: Stage::Idle, confirmed: false, owns_child: false };
        held
    }
}

/// Every step keeps the supervisor's state well formed.
pub proof fn lemma_step_keeps_wf(s: SupervisorState, e: SupervisorEvent)
    requires
        s.wf(),
    ensures
        s.next(e).0.wf(),
{
}

/// Once the backend is confirmed, a start asks for no probe and no launch:
/// it is ready at once and nothing changes.
pub proof fn lemma_start_when_confirmed(s: SupervisorState)
    requires
        s.wf(),
        s.confirmed,
    ensures
        s.next(SupervisorEvent::Start) == (s, SupervisorAction::Ready),
{
}

/// A start that ended in a successful probe leaves the backend confirmed, so
/// the start right after it runs no second probe-then-launch sequence.
pub proof fn lemma_second_start_is_immediate(s: SupervisorState)
    requires
        s.wf(),
        s.next(SupervisorEvent::ProbeSucceeded).1 == SupervisorAction::Ready,
    ensures
        ({
            let t = s.next(SupervisorEvent::ProbeSucceeded).0;
            t.confirmed && t.next(SupervisorEvent::Start) == (t, SupervisorAction::Ready)
        }),
{
}

/// A shutdown of a supervisor that launched nothing terminates nothing and
/// leaves the phase at its start; from the initial state it changes nothing.
pub proof fn lemma_shutdown_without_child(s: SupervisorState)
    requires
        !s.owns_child,
    ensures
        !s.after_shutdown().1,
        s.after_shutdown().0.phase == Phase::NotStarted,
        s == SupervisorState::initial() ==> s.after_shutdown().0 == s,
{
}

/// A launch stops the process launched earlier exactly where one is held,
/// so at most one launched process is alive.
pub proof fn lemma_launch_replaces_held_child(s: SupervisorState, i: usize)
    requires
        s.wf(),
        s.stage == Stage::Locating,
    ensures
        s.next(SupervisorEvent::Located(Some(i))).1 == (SupervisorAction::Launch { candidate: i, stop_previous: s.owns_child }),
{
}

} // verus!
