//! The scope of the connector: the auxiliary process that lets the signing
//! engine reach the device. It is started before the first run of the
//! engine and stopped before the session reports how it ended, whether the
//! runs succeeded or not.

use vstd::prelude::*;
use crate::error::HsmError;

verus! {

/// How a session ended.
#[derive(Clone, Copy, Debug, PartialEq, Eq, Structural)]
pub enum SessionOutcome {
    /// Every run of the signing engine succeeded.
    Success,
    /// A run of the signing engine exited with a failure.
    Failed(HsmError),
    /// The connector could not be started; the engine was never run.
    ConnectorUnavailable,
    /// A run could not be prepared or started; the driver holds the cause.
    Faulted,
}

/// Where a session stands.
#[derive(Clone, Copy, Debug, PartialEq, Eq, Structural)]
pub enum SessionPhase {
    /// Nothing has been started.
    Idle,
    /// The connector has been asked to start.
    Starting,
    /// The connector runs and the run with this number is under way.
    Running(usize),
    /// The connector has been asked to stop; the outcome is settled.
    Stopping(SessionOutcome),
    /// The session is over.
    Finished(SessionOutcome),
}

/// What the driver reports to a session.
#[derive(Clone, Copy, Debug, PartialEq, Eq, Structural)]
pub enum SessionEvent {
    /// The session is to begin.
    Begin,
    /// The connector runs.
    ConnectorStarted,
    /// The connector could not be started.
    ConnectorFailed,
    /// The signing engine exited; `true` for success.
    Completed(bool),
    /// The run could not be prepared or started.
    Faulted,
    /// The connector has been stopped, or stopping it failed; either way
    /// nothing more can be done about it.
    ConnectorStopped,
}

/// What a session asks of the driver next.
#[derive(Clone, Copy, Debug, PartialEq, Eq, Structural)]
pub enum SessionAction {
    /// Start the connector.
    StartConnector,
    /// Run the signing engine for the run with this number.
    Run(usize),
    /// Stop the connector.
    StopConnector,
    /// Report the outcome; the session is over.
    Finish(SessionOutcome),
    /// The event does not fit the phase; nothing changes.
    Rejected,
}

/// The phase and the action that follow an event, for a session of `jobs`
/// runs in which a failing run means `failure`.
pub open spec fn session_next(
    jobs: usize,
    failure: HsmError,
    phase: SessionPhase,
    event: SessionEvent,
) -> (SessionPhase, SessionAction) {
    match (phase, event) {
        (SessionPhase::Idle, SessionEvent::Begin) => (
            SessionPhase::Starting,
            SessionAction::StartConnector,
        ),
        (SessionPhase::Starting, SessionEvent::ConnectorStarted) => if jobs == 0 {
            (SessionPhase::Stopping(SessionOutcome::Success), SessionAction::StopConnector)
        } else {
            (SessionPhase::Running(0), SessionAction::Run(0))
        },
        (SessionPhase::Starting, SessionEvent::ConnectorFailed) => (
            SessionPhase::Finished(SessionOutcome::ConnectorUnavailable),
            SessionAction::Finish(SessionOutcome::ConnectorUnavailable),
        ),
        (SessionPhase::Running(i), SessionEvent::Completed(true)) => if i + 1 < jobs {
            (SessionPhase::Running((i + 1) as usize), SessionAction::Run((i + 1) as usize))
        } else {
            (SessionPhase::Stopping(SessionOutcome::Success), SessionAction::StopConnector)
        },
        (SessionPhase::Running(_), SessionEvent::Completed(false)) => (
            SessionPhase::Stopping(SessionOutcome::Failed(failure)),
            SessionAction::StopConnector,
        ),
        (SessionPhase::Running(_), SessionEvent::Faulted) => (
            SessionPhase::Stopping(SessionOutcome::Faulted),
            SessionAction::StopConnector,
        ),
        (SessionPhase::Stopping(outcome), SessionEvent::ConnectorStopped) => (
            SessionPhase::Finished(outcome),
            SessionAction::Finish(outcome),
        ),
        _ => (phase, SessionAction::Rejected),
    }
}

/// A session of runs of the signing engine inside the scope of the
/// connector.
#[derive(Clone, Copy, Debug, PartialEq, Eq)]
pub struct EngineSession {
    jobs: usize,
    failure: HsmError,
    phase: SessionPhase,
}

impl EngineSession {
    #[verifier::type_invariant]
    spec fn well_formed(self) -> bool {
        self.phase matches SessionPhase::Running(i) ==> i < self.jobs
    }

    /// The number of runs of the session.
    pub closed spec fn spec_jobs(&self) -> usize {
        self.jobs
    }

    /// What a failing run means.
    pub closed spec fn spec_failure(&self) -> HsmError {
        self.failure
    }

    /// Where the session stands.
    pub closed spec fn spec_phase(&self) -> SessionPhase {
        self.phase
    }

    /// A session that has not begun, of `jobs` runs in which a failing run
    /// means `failure`.
    pub fn new(jobs: usize, failure: HsmError) -> (r: EngineSession)
        ensures
            r.spec_jobs() == jobs,
            r.spec_failure() == failure,
            r.spec_phase() == SessionPhase::Idle,
    {
        EngineSession { jobs, failure, phase: SessionPhase::Idle }
    }

    /// The session that founds an authority: the request and its signing;
    /// a failing run means that the key could not be certified by itself.
    pub fn for_bootstrap() -> (r: EngineSession)
        ensures
            r.spec_jobs() == 2,
            r.spec_failure() == HsmError::SelfCertGenFail,
            r.spec_phase() == SessionPhase::Idle,
    {
        EngineSession::new(2, HsmError::SelfCertGenFail)
    }

    /// The session that signs a batch of requests; a failing run means that
    /// no certificate was issued.
    pub fn for_signing(requests: usize) -> (r: EngineSession)
        ensures
            r.spec_jobs() == requests,
            r.spec_failure() == HsmError::CertGenFail,
            r.spec_phase() == SessionPhase::Idle,
    {
        EngineSession::new(requests, HsmError::CertGenFail)
    }

    /// Where the session stands.
    pub fn phase(&self) -> (r: SessionPhase)
        ensures
            r == self.spec_phase(),
            r matches SessionPhase::Running(i) ==> i < self.spec_jobs(),
    {
        proof {
            use_type_invariant(self);
        }
        self.phase
    }

    /// The number of runs of the session.
    pub fn jobs(&self) -> (r: usize)
        ensures
            r == self.spec_jobs(),
    {
        self.jobs
    }

    /// Takes an event and says what to do next.
    pub fn step(&mut self, event: SessionEvent) -> (action: SessionAction)
        ensures
            (final(self).spec_phase(), action) == session_next(
                old(self).spec_jobs(),
                old(self).spec_failure(),
                old(self).spec_phase(),
                event,
            ),
            final(self).spec_jobs() == old(self).spec_jobs(),
            final(self).spec_failure() == old(self).spec_failure(),
            action matches SessionAction::Run(i) ==> i < old(self).spec_jobs(),
    {
        proof {
            use_type_invariant(&*self);
        }
        let jobs: usize = self.jobs;
        let failure: HsmError = self.failure;
        let (phase, action) = match (self.phase, event) {
            (SessionPhase::Idle, SessionEvent::Begin) => (
                SessionPhase::Starting,
                SessionAction::StartConnector,
            ),
            (SessionPhase::Starting, SessionEvent::ConnectorStarted) => if jobs == 0 {
                (SessionPhase::Stopping(SessionOutcome::Success), SessionAction::StopConnector)
            } else {
                (SessionPhase::Running(0), SessionAction::Run(0))
            },
            (SessionPhase::Starting, SessionEvent::ConnectorFailed) => (
                SessionPhase::Finished(SessionOutcome::ConnectorUnavailable),
                SessionAction::Finish(SessionOutcome::ConnectorUnavailable),
            ),
            (SessionPhase::Running(i), SessionEvent::Completed(true)) => if i + 1 < jobs {
                (SessionPhase::Running(i + 1), SessionAction::Run(i + 1))
            } else {
                (SessionPhase::Stopping(SessionOutcome::Success), SessionAction::StopConnector)
            },
            (SessionPhase::Running(_), SessionEvent::Completed(false)) => (
                SessionPhase::Stopping(SessionOutcome::Failed(failure)),
                SessionAction::StopConnector,
            ),
            (SessionPhase::Running(_), SessionEvent::Faulted) => (
                SessionPhase::Stopping(SessionOutcome::Faulted),
                SessionAction::StopConnector,
            ),
            (SessionPhase::Stopping(outcome), SessionEvent::ConnectorStopped) => (
                SessionPhase::Finished(outcome),
                SessionAction::Finish(outcome),
            ),
            (phase, _) => (phase, SessionAction::Rejected),
        };
        self.phase = phase;
        action
    }
}

/// The phase that a session reaches and the actions that it asks for, for
/// a sequence of events reported from the start.
pub open spec fn session_run(jobs: usize, failure: HsmError, events: Seq<SessionEvent>) -> (
    SessionPhase,
    Seq<SessionAction>,
)
    decreases events.len(),
{
    if events.len() == 0 {
        (SessionPhase::Idle, Seq::empty())
    } else {
        let (phase, actions) = session_run(jobs, failure, events.drop_last());
        let (next, action) = session_next(jobs, failure, phase, events.last());
        (next, actions.push(action))
    }
}

/// The connector is asked to stop somewhere before a place in a sequence
/// of actions.
pub open spec fn stopped_before(actions: Seq<SessionAction>, k: int) -> bool {
    exists|j: int| 0 <= j < k && #[trigger] actions[j] == SessionAction::StopConnector
}

/// The signing engine is not run anywhere before a place in a sequence of
/// actions.
pub open spec fn never_run_before(actions: Seq<SessionAction>, k: int) -> bool {
    forall|j: int| 0 <= j < k ==> !((#[trigger] actions[j]) is Run)
}

/// What holds of the actions of a session in a phase.
spec fn trace_fits(phase: SessionPhase, actions: Seq<SessionAction>) -> bool {
    let n = actions.len() as int;
    &&& forall|k: int|
        0 <= k < n && (#[trigger] actions[k]) is Finish ==> stopped_before(actions, k) || (
        actions[k] == SessionAction::Finish(SessionOutcome::ConnectorUnavailable)
            && never_run_before(actions, k))
    &&& forall|i: int, j: int|
        0 <= i < n && 0 <= j < n && (#[trigger] actions[i]) is Run && #[trigger] actions[j]
            == SessionAction::StopConnector ==> i < j
    &&& match phase {
        SessionPhase::Idle => never_run_before(actions, n) && !stopped_before(actions, n),
        SessionPhase::Starting => never_run_before(actions, n) && !stopped_before(actions, n),
        SessionPhase::Running(_) => !stopped_before(actions, n),
        SessionPhase::Stopping(_) => stopped_before(actions, n),
        SessionPhase::Finished(_) => true,
    }
}

/// The connector never outlives a session. Whatever the driver reports,
/// and in whatever order: before a session reports how it ended it has
/// asked for the connector to be stopped, unless the connector never
/// started and the signing engine never ran; and the signing engine is
/// never run after the connector was asked to stop.
pub proof fn connector_is_released(jobs: usize, failure: HsmError, events: Seq<SessionEvent>)
    ensures
        ({
            let actions = session_run(jobs, failure, events).1;
            &&& actions.len() == events.len()
            &&& forall|k: int|
                0 <= k < actions.len() && (#[trigger] actions[k]) is Finish ==> stopped_before(
                    actions,
                    k,
                ) || (actions[k] == SessionAction::Finish(SessionOutcome::ConnectorUnavailable)
                    && never_run_before(actions, k))
            &&& forall|i: int, j: int|
                0 <= i < actions.len() && 0 <= j < actions.len() && (#[trigger] actions[i])
                    is Run && #[trigger] actions[j] == SessionAction::StopConnector ==> i < j
        }),
{
    trace_is_fit(jobs, failure, events);
}

/// Every run of a session leaves a trace that fits its phase.
proof fn trace_is_fit(jobs: usize, failure: HsmError, events: Seq<SessionEvent>)
    ensures
        session_run(jobs, failure, events).1.len() == events.len(),
        trace_fits(session_run(jobs, failure, events).0, session_run(jobs, failure, events).1),
    decreases events.len(),
{
    if events.len() > 0 {
        trace_is_fit(jobs, failure, events.drop_last());
        let (phase, before) = session_run(jobs, failure, events.drop_last());
        let (next, action) = session_next(jobs, failure, phase, events.last());
        let after = before.push(action);
        let n = before.len() as int;
        assert forall|j: int| 0 <= j < n implies after[j] == before[j] by {}
        assert forall|k: int| 0 <= k <= n && stopped_before(before, k) implies stopped_before(
            after,
            k,
        ) by {
            let j = choose|j: int| 0 <= j < k && #[trigger] before[j] == SessionAction::StopConnector;
            assert(after[j] == SessionAction::StopConnector);
        }
        assert forall|k: int| 0 <= k <= n && never_run_before(before, k) implies never_run_before(
            after,
            k,
        ) by {
            assert forall|j: int| 0 <= j < k implies !((#[trigger] after[j]) is Run) by {
                assert(before[j] == after[j]);
            }
        }
        if stopped_before(after, n) {
            let j = choose|j: int| 0 <= j < n && #[trigger] after[j] == SessionAction::StopConnector;
            assert(before[j] == SessionAction::StopConnector);
            assert(stopped_before(before, n));
        }
        if action == SessionAction::StopConnector {
            assert(after[n] == SessionAction::StopConnector);
            assert(stopped_before(after, n + 1));
        }
        if stopped_before(before, n) {
            let j = choose|j: int| 0 <= j < n && #[trigger] before[j] == SessionAction::StopConnector;
            assert(after[j] == SessionAction::StopConnector);
            assert(stopped_before(after, n + 1));
        }
        if stopped_before(after, n + 1) && action != SessionAction::StopConnector {
            let j = choose|j: int|
                0 <= j < n + 1 && #[trigger] after[j] == SessionAction::StopConnector;
            assert(j < n);
            assert(stopped_before(after, n));
        }
        if never_run_before(before, n) && !(action is Run) {
            assert forall|j: int| 0 <= j < n + 1 implies !((#[trigger] after[j]) is Run) by {
                if j < n {
                    assert(before[j] == after[j]);
                }
            }
        }
        assert forall|k: int| 0 <= k < n + 1 && (#[trigger] after[k]) is Finish implies stopped_before(
            after,
            k,
        ) || (after[k] == SessionAction::Finish(SessionOutcome::ConnectorUnavailable)
            && never_run_before(after, k)) by {
            if k < n {
                assert(before[k] is Finish);
            }
        }
        assert forall|i: int, j: int|
            0 <= i < n + 1 && 0 <= j < n + 1 && (#[trigger] after[i]) is Run && #[trigger] after[j]
                == SessionAction::StopConnector implies i < j by {
            if i < n && j < n {
                assert(before[i] is Run);
                assert(before[j] == SessionAction::StopConnector);
            } else if i == n {
                if j < n {
                    assert(before[j] == SessionAction::StopConnector);
                    assert(stopped_before(before, n));
                }
            }
        }
    }
}

} // verus!
