use pvc_migrator::error::MigrationError;
use pvc_migrator::session::{Session, SessionAction, SessionEvent, SessionPhase};
use pvc_migrator::transfer::Direction;

fn new_session() -> Session {
    Session::new(Direction::Backup, "default", "redis-data", 999, 999, "abc123")
}

#[test]
fn session_starts_by_looking_up_pvc() {
    let s = new_session();
    assert_eq!(s.pod_name, "pvc-migrator-backup-abc123");
    assert_eq!(s.namespace, "default");
    assert_eq!(s.pvc, "redis-data");
    assert_eq!(s.phase, SessionPhase::LookingUpPvc);
    assert_eq!(s.outcome, None);
}

#[test]
fn session_successful_run_deletes_pod() {
    let mut s = new_session();
    match s.step(SessionEvent::PvcLookedUp(Ok(true))) {
        SessionAction::CreatePod(m) => {
            assert_eq!(m.name, "pvc-migrator-backup-abc123");
            assert_eq!(m.security.run_as_user, 999);
        }
        other => panic!("expected pod creation, got {other:?}"),
    }
    assert_eq!(s.step(SessionEvent::PodReady(Ok(()))), SessionAction::Transfer);
    assert_eq!(s.step(SessionEvent::TransferDone(Ok(()))), SessionAction::DeletePod);
    assert_eq!(s.step(SessionEvent::PodDeleted(Ok(()))), SessionAction::Finish(Ok(())));
    assert_eq!(s.phase, SessionPhase::Finished);
}

#[test]
fn session_delete_failure_does_not_mask_transfer_error() {
    let mut s = new_session();
    let _ = s.step(SessionEvent::PvcLookedUp(Ok(true)));
    let _ = s.step(SessionEvent::PodReady(Ok(())));
    let err = MigrationError::TarFailed { detail: "exit 2".to_string() };
    assert_eq!(s.step(SessionEvent::TransferDone(Err(err))), SessionAction::DeletePod);
    let delete_err = MigrationError::External { message: "forbidden".to_string() };
    assert_eq!(
        s.step(SessionEvent::PodDeleted(Err(delete_err))),
        SessionAction::Finish(Err(MigrationError::TarFailed { detail: "exit 2".to_string() }))
    );
}

#[test]
fn session_delete_failure_keeps_success() {
    let mut s = new_session();
    let _ = s.step(SessionEvent::PvcLookedUp(Ok(true)));
    let _ = s.step(SessionEvent::PodReady(Ok(())));
    let _ = s.step(SessionEvent::TransferDone(Ok(())));
    let delete_err = MigrationError::External { message: "forbidden".to_string() };
    assert_eq!(s.step(SessionEvent::PodDeleted(Err(delete_err))), SessionAction::Finish(Ok(())));
}

#[test]
fn session_missing_pvc_fails_fast() {
    let mut s = new_session();
    assert_eq!(
        s.step(SessionEvent::PvcLookedUp(Ok(false))),
        SessionAction::Finish(Err(MigrationError::PvcMissing {
            namespace: "default".to_string(),
            name: "redis-data".to_string()
        }))
    );
    assert_eq!(s.phase, SessionPhase::Finished);
}

#[test]
fn session_lookup_error_is_reported() {
    let mut s = new_session();
    let err = MigrationError::External { message: "querying PVC from the API: timeout".to_string() };
    assert_eq!(
        s.step(SessionEvent::PvcLookedUp(Err(err))),
        SessionAction::Finish(Err(MigrationError::External {
            message: "querying PVC from the API: timeout".to_string()
        }))
    );
}

#[test]
fn session_pod_start_failure_skips_transfer_and_delete() {
    let mut s = new_session();
    let _ = s.step(SessionEvent::PvcLookedUp(Ok(true)));
    let err = MigrationError::WatchTimedOut { pod: "pvc-migrator-backup-abc123".to_string() };
    assert_eq!(
        s.step(SessionEvent::PodReady(Err(err))),
        SessionAction::Finish(Err(MigrationError::WatchTimedOut {
            pod: "pvc-migrator-backup-abc123".to_string()
        }))
    );
    assert_eq!(s.phase, SessionPhase::Finished);
}
