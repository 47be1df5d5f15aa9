use oks::engine::{EngineSession, SessionAction, SessionEvent, SessionOutcome, SessionPhase};
use oks::error::HsmError;

#[test]
fn a_session_runs_its_jobs_inside_the_connector() {
    let mut session = EngineSession::for_bootstrap();
    assert_eq!(session.jobs(), 2);
    assert_eq!(session.phase(), SessionPhase::Idle);
    assert_eq!(session.step(SessionEvent::Begin), SessionAction::StartConnector);
    assert_eq!(session.phase(), SessionPhase::Starting);
    assert_eq!(session.step(SessionEvent::ConnectorStarted), SessionAction::Run(0));
    assert_eq!(session.phase(), SessionPhase::Running(0));
    assert_eq!(session.step(SessionEvent::Completed(true)), SessionAction::Run(1));
    assert_eq!(session.step(SessionEvent::Completed(true)), SessionAction::StopConnector);
    assert_eq!(session.phase(), SessionPhase::Stopping(SessionOutcome::Success));
    assert_eq!(
        session.step(SessionEvent::ConnectorStopped),
        SessionAction::Finish(SessionOutcome::Success)
    );
    assert_eq!(session.phase(), SessionPhase::Finished(SessionOutcome::Success));
}

#[test]
fn a_failing_run_stops_the_connector_and_is_reported() {
    let mut session = EngineSession::for_bootstrap();
    session.step(SessionEvent::Begin);
    session.step(SessionEvent::ConnectorStarted);
    assert_eq!(session.step(SessionEvent::Completed(false)), SessionAction::StopConnector);
    assert_eq!(
        session.step(SessionEvent::ConnectorStopped),
        SessionAction::Finish(SessionOutcome::Failed(HsmError::SelfCertGenFail))
    );

    let mut session = EngineSession::for_signing(3);
    session.step(SessionEvent::Begin);
    session.step(SessionEvent::ConnectorStarted);
    assert_eq!(session.step(SessionEvent::Completed(true)), SessionAction::Run(1));
    assert_eq!(session.step(SessionEvent::Completed(false)), SessionAction::StopConnector);
    assert_eq!(session.step(SessionEvent::Completed(true)), SessionAction::Rejected);
    assert_eq!(
        session.step(SessionEvent::ConnectorStopped),
        SessionAction::Finish(SessionOutcome::Failed(HsmError::CertGenFail))
    );
}

#[test]
fn a_fault_stops_the_connector_too() {
    let mut session = EngineSession::for_signing(2);
    session.step(SessionEvent::Begin);
    session.step(SessionEvent::ConnectorStarted);
    assert_eq!(session.step(SessionEvent::Faulted), SessionAction::StopConnector);
    assert_eq!(
        session.step(SessionEvent::ConnectorStopped),
        SessionAction::Finish(SessionOutcome::Faulted)
    );
}

#[test]
fn a_connector_that_does_not_start_ends_the_session() {
    let mut session = EngineSession::for_signing(2);
    session.step(SessionEvent::Begin);
    assert_eq!(
        session.step(SessionEvent::ConnectorFailed),
        SessionAction::Finish(SessionOutcome::ConnectorUnavailable)
    );
    assert_eq!(session.step(SessionEvent::Begin), SessionAction::Rejected);
    assert_eq!(
        session.phase(),
        SessionPhase::Finished(SessionOutcome::ConnectorUnavailable)
    );
}

#[test]
fn a_session_without_jobs_still_stops_the_connector() {
    let mut session = EngineSession::for_signing(0);
    session.step(SessionEvent::Begin);
    assert_eq!(session.step(SessionEvent::ConnectorStarted), SessionAction::StopConnector);
    assert_eq!(
        session.step(SessionEvent::ConnectorStopped),
        SessionAction::Finish(SessionOutcome::Success)
    );
}

#[test]
fn session_events_out_of_turn_change_nothing() {
    let mut session = EngineSession::new(1, HsmError::CertGenFail);
    for event in [
        SessionEvent::ConnectorStarted,
        SessionEvent::ConnectorFailed,
        SessionEvent::Completed(true),
        SessionEvent::Completed(false),
        SessionEvent::Faulted,
        SessionEvent::ConnectorStopped,
    ] {
        assert_eq!(session.step(event), SessionAction::Rejected);
        assert_eq!(session.phase(), SessionPhase::Idle);
    }
    session.step(SessionEvent::Begin);
    assert_eq!(session.step(SessionEvent::Begin), SessionAction::Rejected);
    assert_eq!(session.step(SessionEvent::Completed(true)), SessionAction::Rejected);
    assert_eq!(session.phase(), SessionPhase::Starting);
    session.step(SessionEvent::ConnectorStarted);
    assert_eq!(session.step(SessionEvent::ConnectorStopped), SessionAction::Rejected);
    assert_eq!(session.step(SessionEvent::ConnectorStarted), SessionAction::Rejected);
    assert_eq!(session.phase(), SessionPhase::Running(0));
}

#[test]
fn every_finished_session_has_stopped_a_started_connector() {
    let events = [
        SessionEvent::Begin,
        SessionEvent::ConnectorStarted,
        SessionEvent::ConnectorFailed,
        SessionEvent::Completed(true),
        SessionEvent::Completed(false),
        SessionEvent::Faulted,
        SessionEvent::ConnectorStopped,
    ];
    let mut count = 0u32;
    for code in 0..7usize.pow(6) {
        let mut session = EngineSession::for_signing(2);
        let mut actions = Vec::new();
        let mut rest = code;
        for _ in 0..6 {
            actions.push(session.step(events[rest % 7]));
            rest /= 7;
        }
        for (k, action) in actions.iter().enumerate() {
            if let SessionAction::Run(_) = action {
                assert!(!actions[..k].contains(&SessionAction::StopConnector));
            }
            if let SessionAction::Finish(outcome) = action {
                let stopped = actions[..k].contains(&SessionAction::StopConnector);
                let ran = actions[..k].iter().any(|a| matches!(a, SessionAction::Run(_)));
                assert!(stopped || (*outcome == SessionOutcome::ConnectorUnavailable && !ran));
                count += 1;
            }
        }
    }
    assert!(count > 0);
}
