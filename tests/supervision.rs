use backend_bridge::launch::{backend_candidates, first_existing, health_url, interpreter, launch_arguments};
use backend_bridge::supervisor::{Phase, StartupError, Supervisor, SupervisorAction, SupervisorEvent};

#[test]
fn second_start_after_confirmation_is_immediate() {
    let mut s = Supervisor::new();
    assert_eq!(s.step(SupervisorEvent::Start), SupervisorAction::Probe);
    assert_eq!(s.phase(), Phase::Starting);
    assert_eq!(s.step(SupervisorEvent::ProbeSucceeded), SupervisorAction::Ready);
    assert!(s.is_confirmed());
    assert_eq!(s.step(SupervisorEvent::Start), SupervisorAction::Ready);
    assert_eq!(s.phase(), Phase::Running);
    assert!(!s.owns_child());
}

#[test]
fn full_launch_sequence() {
    let mut s = Supervisor::new();
    assert_eq!(s.step(SupervisorEvent::Start), SupervisorAction::Probe);
    assert_eq!(s.step(SupervisorEvent::ProbeFailed("refused".to_string())), SupervisorAction::LocateBackend);
    assert_eq!(
        s.step(SupervisorEvent::Located(Some(1))),
        SupervisorAction::Launch { candidate: 1, stop_previous: false }
    );
    assert_eq!(s.step(SupervisorEvent::Launched), SupervisorAction::Settle);
    assert!(s.owns_child());
    assert!(!s.is_confirmed());
    assert_eq!(s.step(SupervisorEvent::Settled), SupervisorAction::Probe);
    assert_eq!(s.step(SupervisorEvent::ProbeSucceeded), SupervisorAction::Ready);
    assert_eq!(s.phase(), Phase::Running);
    assert!(s.shutdown());
    assert_eq!(s.phase(), Phase::NotStarted);
    assert!(!s.owns_child());
    assert!(!s.is_confirmed());
}

#[test]
fn missing_backend_directory_fails_and_retries() {
    let mut s = Supervisor::new();
    s.step(SupervisorEvent::Start);
    s.step(SupervisorEvent::ProbeFailed("refused".to_string()));
    assert_eq!(
        s.step(SupervisorEvent::Located(None)),
        SupervisorAction::Fail(StartupError::BackendNotFound)
    );
    assert_eq!(s.phase(), Phase::Failed);
    assert!(!s.is_confirmed());
    assert_eq!(s.step(SupervisorEvent::Start), SupervisorAction::Probe);
}

#[test]
fn silent_backend_after_launch_fails() {
    let mut s = Supervisor::new();
    s.step(SupervisorEvent::Start);
    s.step(SupervisorEvent::ProbeFailed("refused".to_string()));
    s.step(SupervisorEvent::Located(Some(0)));
    s.step(SupervisorEvent::Launched);
    s.step(SupervisorEvent::Settled);
    assert_eq!(
        s.step(SupervisorEvent::ProbeFailed("timed out".to_string())),
        SupervisorAction::Fail(StartupError::BackendStartupFailed("timed out".to_string()))
    );
    assert_eq!(s.phase(), Phase::Failed);
    assert!(s.owns_child());
    s.step(SupervisorEvent::Start);
    s.step(SupervisorEvent::ProbeFailed("refused".to_string()));
    assert_eq!(
        s.step(SupervisorEvent::Located(Some(2))),
        SupervisorAction::Launch { candidate: 2, stop_previous: true }
    );
}

#[test]
fn spawn_failure_is_reported() {
    let mut s = Supervisor::new();
    s.step(SupervisorEvent::Start);
    s.step(SupervisorEvent::ProbeFailed("refused".to_string()));
    s.step(SupervisorEvent::Located(Some(3)));
    assert_eq!(
        s.step(SupervisorEvent::LaunchFailed("not found".to_string())),
        SupervisorAction::Fail(StartupError::LaunchFailed("not found".to_string()))
    );
    assert_eq!(s.phase(), Phase::Failed);
    assert!(!s.owns_child());
}

#[test]
fn out_of_turn_events_are_ignored() {
    let mut s = Supervisor::new();
    assert_eq!(s.step(SupervisorEvent::ProbeSucceeded), SupervisorAction::Ignore);
    assert_eq!(s.step(SupervisorEvent::Settled), SupervisorAction::Ignore);
    assert_eq!(s.phase(), Phase::NotStarted);
    s.step(SupervisorEvent::Start);
    assert_eq!(s.step(SupervisorEvent::Start), SupervisorAction::Ignore);
    assert_eq!(s.step(SupervisorEvent::Launched), SupervisorAction::Ignore);
}

#[test]
fn shutdown_without_child_is_noop() {
    let mut s = Supervisor::new();
    assert!(!s.shutdown());
    assert_eq!(s.phase(), Phase::NotStarted);
    assert!(!s.is_confirmed());
    assert!(!s.owns_child());
}

#[test]
fn shutdown_of_external_backend_terminates_nothing() {
    let mut s = Supervisor::new();
    s.step(SupervisorEvent::Start);
    s.step(SupervisorEvent::ProbeSucceeded);
    assert!(!s.shutdown());
    assert_eq!(s.phase(), Phase::NotStarted);
    assert!(!s.is_confirmed());
}

#[test]
fn startup_error_messages() {
    assert_eq!(StartupError::BackendNotFound.message(), "backend directory not found");
    assert_eq!(StartupError::LaunchFailed("e".to_string()).message(), "failed to start backend: e");
    assert_eq!(StartupError::BackendStartupFailed("t".to_string()).message(), "backend is not responding: t");
}

#[test]
fn first_existing_candidate() {
    assert_eq!(first_existing(&vec![false, true, true]), Some(1));
    assert_eq!(first_existing(&vec![true]), Some(0));
    assert_eq!(first_existing(&vec![false, false]), None);
    assert_eq!(first_existing(&vec![]), None);
}

#[test]
fn candidate_directories_in_order() {
    let c = backend_candidates();
    assert_eq!(c.len(), 4);
    assert_eq!((c[0].from_parent, c[0].relative.as_str()), (false, "Contents/Resources/backend"));
    assert_eq!((c[1].from_parent, c[1].relative.as_str()), (true, "backend"));
    assert_eq!((c[2].from_parent, c[2].relative.as_str()), (false, "backend"));
    assert_eq!((c[3].from_parent, c[3].relative.as_str()), (false, "../backend"));
}

#[test]
fn launch_command() {
    assert_eq!(interpreter(true), "python");
    assert_eq!(interpreter(false), "python3");
    assert_eq!(
        launch_arguments(),
        vec!["-m", "uvicorn", "app.main:app", "--host", "127.0.0.1", "--port", "8000"]
    );
    assert_eq!(health_url(), "http://127.0.0.1:8000/pcc");
}
