use pvc_migrator::error::MigrationError;
use pvc_migrator::transfer::{
    CHUNK_SIZE, Direction, Transfer, TransferAction, TransferEvent, TransferPhase, completion_message,
    direction_name, tar_request,
};

#[test]
fn chunk_is_64_kib() {
    assert_eq!(CHUNK_SIZE, 64 * 1024);
}

#[test]
fn tar_requests() {
    let b = tar_request(Direction::Backup);
    assert_eq!(b.command, vec!["tar", "cf", "-", "-C", "/data", "."]);
    assert!(!b.stdin && b.stdout && b.stderr);
    let r = tar_request(Direction::Restore);
    assert_eq!(r.command, vec!["tar", "xf", "-", "-C", "/data"]);
    assert!(r.stdin && r.stdout && r.stderr);
}

#[test]
fn completion_messages() {
    assert_eq!(completion_message(Direction::Backup, 0), "backup complete (0 bytes)");
    assert_eq!(completion_message(Direction::Restore, 131072), "restore complete (131072 bytes)");
    assert_eq!(direction_name(Direction::Backup), "backup");
    assert_eq!(direction_name(Direction::Restore), "restore");
}

#[test]
fn backup_transfer_counts_every_byte() {
    let mut t = Transfer::new(Direction::Backup);
    assert_eq!(t.phase, TransferPhase::Streaming);
    let chunks = [CHUNK_SIZE, 10, CHUNK_SIZE, 1];
    for n in chunks {
        assert_eq!(t.step(TransferEvent::Read(n)), TransferAction::Write(n));
        assert_eq!(t.phase, TransferPhase::Streaming);
    }
    let total: u64 = chunks.iter().map(|&n| n as u64).sum();
    assert_eq!(t.transferred, total);
    assert_eq!(t.step(TransferEvent::Read(0)), TransferAction::Close);
    assert_eq!(t.phase, TransferPhase::Closing);
    assert_eq!(
        t.step(TransferEvent::Closed),
        TransferAction::AwaitExit { completion: format!("backup complete ({total} bytes)") }
    );
    assert_eq!(t.step(TransferEvent::Exited(Ok(()))), TransferAction::Finish(Ok(total)));
    assert_eq!(t.phase, TransferPhase::Finished);
}

#[test]
fn restore_of_empty_input() {
    let mut t = Transfer::new(Direction::Restore);
    assert_eq!(t.step(TransferEvent::Read(0)), TransferAction::Close);
    assert_eq!(
        t.step(TransferEvent::Closed),
        TransferAction::AwaitExit { completion: "restore complete (0 bytes)".to_string() }
    );
    assert_eq!(t.step(TransferEvent::Exited(Ok(()))), TransferAction::Finish(Ok(0)));
}

#[test]
fn tar_failure_is_reported() {
    let mut t = Transfer::new(Direction::Backup);
    assert_eq!(t.step(TransferEvent::Read(5)), TransferAction::Write(5));
    assert_eq!(t.step(TransferEvent::Read(0)), TransferAction::Close);
    let _ = t.step(TransferEvent::Closed);
    assert_eq!(
        t.step(TransferEvent::Exited(Err("command terminated with exit code 2".to_string()))),
        TransferAction::Finish(Err(MigrationError::TarFailed {
            detail: "command terminated with exit code 2".to_string()
        }))
    );
}
