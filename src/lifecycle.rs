//! Ownership of the backend process and the decisions of its shutdown.

use vstd::prelude::*;

verus! {

/// Where the backend's shutdown endpoint listens.
pub const SHUTDOWN_URL: &'static str = "http://localhost:8080/api/shutdown";

/// Host, port and path of that endpoint.
pub const SHUTDOWN_HOST: &'static str = "localhost";

pub const SHUTDOWN_PORT: u16 = 8080;

pub const SHUTDOWN_PATH: &'static str = "/api/shutdown";

/// Bound on the shutdown request, in seconds.
pub const SHUTDOWN_TIMEOUT_SECS: u64 = 5;

/// How long the backend is given to exit on its own, in seconds.
pub const GRACE_PERIOD_SECS: u64 = 5;

/// Where the window-close sequence stands.
#[derive(Clone, Copy, Debug, PartialEq, Eq, Structural)]
pub enum Phase {
    /// No shutdown sequence is running.
    Idle,
    /// The shutdown request was sent and its outcome is awaited.
    AwaitingReply,
    /// The grace period is running.
    GracePeriod,
}

/// How the shutdown request ended.
#[derive(Clone, Copy, Debug, PartialEq, Eq, Structural)]
pub enum ReplyOutcome {
    Succeeded,
    TimedOut,
    Failed,
}

/// What the host reports to the lifecycle manager.
#[derive(Clone, Copy, Debug, PartialEq, Eq, Structural)]
pub enum LifecycleEvent {
    /// The main window asked to close.
    CloseRequested,
    /// The shutdown request ended.
    ShutdownReplied { outcome: ReplyOutcome },
    /// The grace period ran out.
    GraceElapsed,
    /// The application is exiting.
    AppExit,
    /// The backend's event stream ended.
    OutputEnded,
}

/// What the host is to do next.
#[derive(Clone, Copy, Debug, PartialEq, Eq, Structural)]
pub enum LifecycleAction {
    Nothing,
    /// POST to the shutdown endpoint, giving up after `timeout_secs`.
    PostShutdown { timeout_secs: u64 },
    /// Block for `secs` seconds, then report `GraceElapsed`.
    Wait { secs: u64 },
    /// Force-terminate the process tree of `pid`.
    Terminate { pid: u32 },
}

/// The backend process as the manager owns it.
pub struct Sidecar<H> {
    pub pid: u32,
    pub handle: H,
}

/// The abstract state: the pid of the stored backend, if any, and the phase.
pub struct LifecycleModel {
    pub pid: Option<u32>,
    pub phase: Phase,
}

/// The transition function: the state after `e`, and the action it calls for.
pub open spec fn next(s: LifecycleModel, e: LifecycleEvent) -> (LifecycleModel, LifecycleAction) {
    match e {
        LifecycleEvent::CloseRequested => {
            if s.phase != Phase::Idle {
                (s, LifecycleAction::Nothing)
            } else if s.pid is Some {
                (
                    LifecycleModel { pid: s.pid, phase: Phase::AwaitingReply },
                    LifecycleAction::PostShutdown { timeout_secs: SHUTDOWN_TIMEOUT_SECS },
                )
            } else {
                (
                    LifecycleModel { pid: s.pid, phase: Phase::GracePeriod },
                    LifecycleAction::Wait { secs: GRACE_PERIOD_SECS },
                )
            }
        },
        LifecycleEvent::ShutdownReplied { .. } => {
            if s.phase == Phase::AwaitingReply {
                (
                    LifecycleModel { pid: s.pid, phase: Phase::GracePeriod },
                    LifecycleAction::Wait { secs: GRACE_PERIOD_SECS },
                )
            } else {
                (s, LifecycleAction::Nothing)
            }
        },
        LifecycleEvent::GraceElapsed => {
            if s.phase == Phase::GracePeriod {
                (LifecycleModel { pid: None, phase: Phase::Idle }, terminate_action(s.pid))
            } else {
                (s, LifecycleAction::Nothing)
            }
        },
        LifecycleEvent::AppExit => {
            (LifecycleModel { pid: None, phase: s.phase }, terminate_action(s.pid))
        },
        LifecycleEvent::OutputEnded => {
            (LifecycleModel { pid: None, phase: s.phase }, LifecycleAction::Nothing)
        },
    }
}

/// Termination of the taken pid, if one was there.
pub open spec fn terminate_action(pid: Option<u32>) -> LifecycleAction {
    match pid {
        Some(p) => LifecycleAction::Terminate { pid: p },
        None => LifecycleAction::Nothing,
    }
}

/// The state after a run of events, and the actions it called for, in order.
pub open spec fn run(s: LifecycleModel, events: Seq<LifecycleEvent>) -> (
    LifecycleModel,
    Seq<LifecycleAction>,
)
    decreases events.len(),
{
    if events.len() == 0 {
        (s, Seq::empty())
    } else {
        let (mid, acts) = run(s, events.drop_last());
        let (last, act) = next(mid, events.last());
        (last, acts.push(act))
    }
}

/// How many of `actions` terminate a process.
pub open spec fn terminations(actions: Seq<LifecycleAction>) -> nat
    decreases actions.len(),
{
    if actions.len() == 0 {
        0
    } else {
        terminations(actions.drop_last()) + if actions.last() is Terminate {
            1nat
        } else {
            0nat
        }
    }
}

/// Owner of the backend process: the one place that stores, peeks at and takes it.
pub struct Lifecycle<H> {
    child: Option<Sidecar<H>>,
    phase: Phase,
}

impl<H> View for Lifecycle<H> {
    type V = LifecycleModel;

    closed spec fn view(&self) -> LifecycleModel {
        LifecycleModel {
            pid: match self.child {
                Some(c) => Some(c.pid),
                None => None,
            },
            phase: self.phase,
        }
    }
}

impl<H> Lifecycle<H> {
    /// A manager with no backend and no shutdown running.
    pub fn new() -> (r: Self)
        ensures
            r@.pid is None,
            r@.phase == Phase::Idle,
    {
        Lifecycle { child: None, phase: Phase::Idle }
    }

    /// Stores the spawned backend; a backend stored before is dropped.
    pub fn store(&mut self, pid: u32, handle: H)
        ensures
            final(self)@.pid == Some(pid),
            final(self)@.phase == old(self)@.phase,
    {
        self.child = Some(Sidecar { pid, handle });
    }

    /// The pid of the stored backend, if any.
    pub fn peek_id(&self) -> (r: Option<u32>)
        ensures
            r == self@.pid,
    {
        match &self.child {
            Some(c) => Some(c.pid),
            None => None,
        }
    }

    /// Takes the stored backend out, leaving none.
    pub fn take(&mut self) -> (r: Option<Sidecar<H>>)
        ensures
            final(self)@.pid is None,
            final(self)@.phase == old(self)@.phase,
            match r {
                Some(c) => old(self)@.pid == Some(c.pid),
                None => old(self)@.pid is None,
            },
    {
        let mut out: Option<Sidecar<H>> = None;
        std::mem::swap(&mut out, &mut self.child);
        out
    }

    /// The current phase of the window-close sequence.
    pub fn phase(&self) -> (r: Phase)
        ensures
            r == self@.phase,
    {
        self.phase
    }

    /// Takes the backend, if still there, and calls for its termination.
    fn take_and_terminate(&mut self) -> (r: LifecycleAction)
        ensures
            final(self)@.pid is None,
            final(self)@.phase == old(self)@.phase,
            r == terminate_action(old(self)@.pid),
    {
        match self.take() {
            Some(c) => LifecycleAction::Terminate { pid: c.pid },
            None => LifecycleAction::Nothing,
        }
    }

    /// Handles one event and says what the host must do next.
    pub fn step(&mut self, e: LifecycleEvent) -> (r: LifecycleAction)
        ensures
            (final(self)@, r) == next(old(self)@, e),
    {
        match e {
            LifecycleEvent::CloseRequested => {
                if self.phase != Phase::Idle {
                    LifecycleAction::Nothing
                } else if self.peek_id().is_some() {
                    self.phase = Phase::AwaitingReply;
                    LifecycleAction::PostShutdown { timeout_secs: SHUTDOWN_TIMEOUT_SECS }
                } else {
                    self.phase = Phase::GracePeriod;
                    LifecycleAction::Wait { secs: GRACE_PERIOD_SECS }
                }
            },
            LifecycleEvent::ShutdownReplied { .. } => {
                if self.phase == Phase::AwaitingReply {
                    self.phase = Phase::GracePeriod;
                    LifecycleAction::Wait { secs: GRACE_PERIOD_SECS }
                } else {
                    LifecycleAction::Nothing
                }
            },
            LifecycleEvent::GraceElapsed => {
                if self.phase == Phase::GracePeriod {
                    self.phase = Phase::Idle;
                    self.take_and_terminate()
                } else {
                    LifecycleAction::Nothing
                }
            },
            LifecycleEvent::AppExit => self.final_cleanup(),
            LifecycleEvent::OutputEnded => {
                self.take();
                LifecycleAction::Nothing
            },
        }
    }

    /// The exit-time safety net: terminates the backend if it is still stored.
    /// With no backend stored it changes nothing and calls for nothing.
    pub fn final_cleanup(&mut self) -> (r: LifecycleAction)
        ensures
            (final(self)@, r) == next(old(self)@, LifecycleEvent::AppExit),
            old(self)@.pid is None ==> r == LifecycleAction::Nothing && final(self)@ == old(
                self,
            )@,
    {
        self.take_and_terminate()
    }
}

/// Whatever events arrive, in any order and any number, at most one of the
/// actions they call for terminates a process, and none does once the
/// backend is gone.
pub proof fn terminate_at_most_once(s: LifecycleModel, events: Seq<LifecycleEvent>)
    ensures
        terminations(run(s, events).1) <= 1,
        s.pid is None ==> terminations(run(s, events).1) == 0,
{
    lemma_terminations_bounded(s, events);
}

/// Each termination spends the stored pid, and no event stores one.
proof fn lemma_terminations_bounded(s: LifecycleModel, events: Seq<LifecycleEvent>)
    ensures
        terminations(run(s, events).1) + (if run(s, events).0.pid is Some {
            1nat
        } else {
            0nat
        }) <= if s.pid is Some {
            1nat
        } else {
            0nat
        },
    decreases events.len(),
{
    if events.len() > 0 {
        lemma_terminations_bounded(s, events.drop_last());
        let (mid, acts) = run(s, events.drop_last());
        let (last, act) = next(mid, events.last());
        let all = acts.push(act);
        assert(all.drop_last() =~= acts);
    }
}

/// The window-close sequence, run to its end from an idle state, leaves no
/// backend stored, whatever became of the shutdown request; with a backend
/// stored it asks for the request, then the full wait, then the termination
/// of that backend.
pub proof fn graceful_shutdown_clears_handle(s: LifecycleModel, outcome: ReplyOutcome)
    requires
        s.phase == Phase::Idle,
    ensures
        ({
            let events = seq![
                LifecycleEvent::CloseRequested,
                LifecycleEvent::ShutdownReplied { outcome },
                LifecycleEvent::GraceElapsed,
            ];
            let (end, actions) = run(s, events);
            &&& end.pid is None
            &&& end.phase == Phase::Idle
            &&& s.pid is Some ==> actions == seq![
                LifecycleAction::PostShutdown { timeout_secs: SHUTDOWN_TIMEOUT_SECS },
                LifecycleAction::Wait { secs: GRACE_PERIOD_SECS },
                terminate_action(s.pid),
            ]
        }),
{
    let events = seq![
        LifecycleEvent::CloseRequested,
        LifecycleEvent::ShutdownReplied { outcome },
        LifecycleEvent::GraceElapsed,
    ];
    assert(events.drop_last().drop_last().drop_last() =~= Seq::<LifecycleEvent>::empty());
    assert(events.drop_last().drop_last() =~= seq![LifecycleEvent::CloseRequested]);
    assert(events.drop_last() =~= seq![
        LifecycleEvent::CloseRequested,
        LifecycleEvent::ShutdownReplied { outcome },
    ]);
    let e1 = events.drop_last().drop_last();
    let e2 = events.drop_last();
    let (s1, a1) = next(s, LifecycleEvent::CloseRequested);
    let (s2, a2) = next(s1, LifecycleEvent::ShutdownReplied { outcome });
    let (s3, a3) = next(s2, LifecycleEvent::GraceElapsed);
    assert(run(s, e1.drop_last()) == (s, Seq::<LifecycleAction>::empty()));
    assert(e1.last() == LifecycleEvent::CloseRequested);
    assert(run(s, e1) == (s1, seq![a1]));
    assert(e2.last() == LifecycleEvent::ShutdownReplied { outcome });
    assert(run(s, e2) == (s2, seq![a1].push(a2)));
    assert(run(s, events) == (s3, seq![a1].push(a2).push(a3)));
    if s.pid is Some {
        assert(seq![a1].push(a2).push(a3) =~= seq![
            LifecycleAction::PostShutdown { timeout_secs: SHUTDOWN_TIMEOUT_SECS },
            LifecycleAction::Wait { secs: GRACE_PERIOD_SECS },
            terminate_action(s.pid),
        ]);
    }
}

} // verus!
