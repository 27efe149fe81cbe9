//! End-to-end scenarios driven through the backup run's state machine.

use borgify::backup::{Action, BackupMachine, Error as BackupError, Event, Phase, TermStatus};
use borgify::btrfs::Error as BtrfsError;
use borgify::config::Archive;

fn docs_archive(snapshot: bool) -> Archive {
    Archive {
        compression: String::from("lz4"),
        repository: String::from("/repo"),
        root: String::from("/srv/data"),
        btrfs_snapshot: snapshot,
        patterns: vec![String::from("+foo")],
    }
}

fn start(snapshot: bool, has_passphrase: bool) -> (BackupMachine, Action) {
    BackupMachine::new(
        String::from("docs"),
        docs_archive(snapshot),
        String::from("2024-01-02T03:04:05"),
        String::from("2024-01-02T04:04:05"),
        has_passphrase,
        0o077,
    )
}

/// Archive with snapshotting enabled, valid subvolume root, no colliding
/// name: one snapshot is created, the command runs once rooted at it, the
/// snapshot is destroyed exactly once afterwards, and the warning flag is
/// the OR of "collision occurred" and "exited 1".
#[test]
fn snapshot_run_happy_path() {
    let (m, a) = start(true, true);
    assert!(matches!(a, Action::OpenRoot { ref path } if path == "/srv/data"));
    let (m, a) = m.step(Event::Opened { fd: 3 });
    assert_eq!(a, Action::OpenParent { root_fd: 3 });
    let (m, a) = m.step(Event::Opened { fd: 4 });
    assert_eq!(a, Action::CheckFilesystem { fd: 3 });
    let (m, a) = m.step(Event::FsType { f_type: 0x9123683e });
    assert_eq!(a, Action::CheckInode { fd: 3 });
    let (m, a) = m.step(Event::Inode { is_dir: true, ino: 256 });
    let first_name = match &a {
        Action::CreateSnapshot { parent_fd: 4, request, name } => {
            assert_eq!(request.len(), 4096);
            name.clone()
        },
        other => panic!("expected a create action, got {other:?}"),
    };
    assert_eq!(first_name.len(), 64);
    let (m, a) = m.step(Event::Succeeded);
    assert!(matches!(a, Action::OpenSnapshotDir { parent_fd: 4, ref name } if *name == first_name));
    let (m, a) = m.step(Event::Opened { fd: 5 });
    assert_eq!(a, Action::PreparePipe);
    let (m, a) = m.step(Event::PipeReady { fd: 6 });
    match &a {
        Action::RunCommand { plan, dir_fd } => {
            // Rooted at the snapshot, not at the live source.
            assert_eq!(*dir_fd, 5);
            assert_eq!(plan.program, "borg");
        },
        other => panic!("expected the run action, got {other:?}"),
    }
    // Exit code 1: success with warnings.
    let (m, a) = m.step(Event::Exited { status: TermStatus::Exited(1) });
    assert_eq!(a, Action::ReadFlags { fd: 5 });
    let (m, a) = m.step(Event::Flags { flags: 0b11 });
    assert_eq!(a, Action::WriteFlags { fd: 5, flags: 0b01 });
    let (m, a) = m.step(Event::Succeeded);
    assert_eq!(a, Action::QueryInfo { fd: 5 });
    let (m, a) = m.step(Event::SubvolId { id: 77 });
    match &a {
        Action::DestroySnapshot { parent_fd: 4, request } => assert_eq!(request.len(), 4096),
        other => panic!("expected the destroy action, got {other:?}"),
    }
    let (_m, a) = m.step(Event::Succeeded);
    assert_eq!(a, Action::Done { result: Ok(true) });
}

/// Same run with exit code 0 and no collision: no warning is reported.
#[test]
fn snapshot_run_no_warnings() {
    let (m, _) = start(true, false);
    let (m, _) = m.step(Event::Opened { fd: 3 });
    let (m, _) = m.step(Event::Opened { fd: 4 });
    let (m, _) = m.step(Event::FsType { f_type: 0x9123683e });
    let (m, _) = m.step(Event::Inode { is_dir: true, ino: 256 });
    let (m, _) = m.step(Event::Succeeded);
    let (m, a) = m.step(Event::Opened { fd: 5 });
    // No passphrase: the command is spawned without the pipe step.
    assert!(matches!(a, Action::RunCommand { dir_fd: 5, .. }));
    let (m, _) = m.step(Event::Exited { status: TermStatus::Exited(0) });
    let (m, _) = m.step(Event::Flags { flags: 0b10 });
    let (m, _) = m.step(Event::Succeeded);
    let (m, _) = m.step(Event::SubvolId { id: 9 });
    let (_m, a) = m.step(Event::Succeeded);
    assert_eq!(a, Action::Done { result: Ok(false) });
}

/// Name collisions are retried with fresh names; creation succeeds at
/// counter two with exactly two warnings recorded, and the run reports a
/// warning even though the command exits 0.
#[test]
fn snapshot_name_collisions_are_retried() {
    let (m, _) = start(true, false);
    let (m, _) = m.step(Event::Opened { fd: 3 });
    let (m, _) = m.step(Event::Opened { fd: 4 });
    let (m, _) = m.step(Event::FsType { f_type: 0x9123683e });
    let (m, a) = m.step(Event::Inode { is_dir: true, ino: 256 });
    let name0 = match &a {
        Action::CreateSnapshot { name, .. } => name.clone(),
        other => panic!("expected a create action, got {other:?}"),
    };
    // First collision: the filesystem checks run again, then a new name.
    let (m, a) = m.step(Event::Failed { errno: 17 });
    assert_eq!(a, Action::CheckFilesystem { fd: 3 });
    let (m, _) = m.step(Event::FsType { f_type: 0x9123683e });
    let (m, a) = m.step(Event::Inode { is_dir: true, ino: 256 });
    let name1 = match &a {
        Action::CreateSnapshot { name, .. } => name.clone(),
        other => panic!("expected a create action, got {other:?}"),
    };
    assert_ne!(name0, name1);
    // Second collision.
    let (m, _) = m.step(Event::Failed { errno: 17 });
    let (m, _) = m.step(Event::FsType { f_type: 0x9123683e });
    let (m, a) = m.step(Event::Inode { is_dir: true, ino: 256 });
    let name2 = match &a {
        Action::CreateSnapshot { name, .. } => name.clone(),
        other => panic!("expected a create action, got {other:?}"),
    };
    assert_ne!(name1, name2);
    assert_ne!(name0, name2);
    // Success at counter two, with exactly two warnings recorded.
    let (m, _) = m.step(Event::Succeeded);
    assert!(matches!(m.phase, Phase::SnapDirRequested { warnings: 2, .. }));
    let (m, _) = m.step(Event::Opened { fd: 5 });
    let (m, _) = m.step(Event::Exited { status: TermStatus::Exited(0) });
    let (m, _) = m.step(Event::Flags { flags: 0b10 });
    let (m, _) = m.step(Event::Succeeded);
    let (m, _) = m.step(Event::SubvolId { id: 9 });
    let (_m, a) = m.step(Event::Succeeded);
    assert_eq!(a, Action::Done { result: Ok(true) });
}

/// Source root exists but is not a subvolume root: the run fails at once,
/// no command is spawned and no destroy request is issued.
#[test]
fn not_a_subvolume_root_fails_immediately() {
    let (m, _) = start(true, true);
    let (m, _) = m.step(Event::Opened { fd: 3 });
    let (m, _) = m.step(Event::Opened { fd: 4 });
    let (m, _) = m.step(Event::FsType { f_type: 0x9123683e });
    let (m, a) = m.step(Event::Inode { is_dir: true, ino: 257 });
    assert_eq!(
        a,
        Action::Done { result: Err(BackupError::SnapshotCreate(BtrfsError::NotSubvolumeRoot)) }
    );
    assert!(matches!(m.phase, Phase::Finished { .. }));
}

/// A non-btrfs filesystem fails the run before anything is created.
#[test]
fn not_btrfs_fails_immediately() {
    let (m, _) = start(true, false);
    let (m, _) = m.step(Event::Opened { fd: 3 });
    let (m, _) = m.step(Event::Opened { fd: 4 });
    let (_m, a) = m.step(Event::FsType { f_type: 0x1234 });
    assert_eq!(
        a,
        Action::Done { result: Err(BackupError::SnapshotCreate(BtrfsError::NotBtrfs)) }
    );
}

/// The command dies from a fatal signal: the failure keeps the signal
/// number, and the snapshot is still torn down afterwards.
#[test]
fn signal_termination_still_deletes_snapshot() {
    let (m, _) = start(true, false);
    let (m, _) = m.step(Event::Opened { fd: 3 });
    let (m, _) = m.step(Event::Opened { fd: 4 });
    let (m, _) = m.step(Event::FsType { f_type: 0x9123683e });
    let (m, _) = m.step(Event::Inode { is_dir: true, ino: 256 });
    let (m, _) = m.step(Event::Succeeded);
    let (m, _) = m.step(Event::Opened { fd: 5 });
    let (m, a) = m.step(Event::Exited { status: TermStatus::Signaled(9) });
    // Teardown begins despite the failure.
    assert_eq!(a, Action::ReadFlags { fd: 5 });
    let (m, a) = m.step(Event::Flags { flags: 0b10 });
    assert_eq!(a, Action::WriteFlags { fd: 5, flags: 0 });
    let (m, _) = m.step(Event::Succeeded);
    let (m, _) = m.step(Event::SubvolId { id: 9 });
    let (_m, a) = m.step(Event::Succeeded);
    assert_eq!(a, Action::Done { result: Err(BackupError::Signal(9)) });
}

/// Both the command and the deletion fail: the command's error is the one
/// reported.
#[test]
fn backup_error_beats_deletion_error() {
    let (m, _) = start(true, false);
    let (m, _) = m.step(Event::Opened { fd: 3 });
    let (m, _) = m.step(Event::Opened { fd: 4 });
    let (m, _) = m.step(Event::FsType { f_type: 0x9123683e });
    let (m, _) = m.step(Event::Inode { is_dir: true, ino: 256 });
    let (m, _) = m.step(Event::Succeeded);
    let (m, _) = m.step(Event::Opened { fd: 5 });
    let (m, _) = m.step(Event::Exited { status: TermStatus::Exited(2) });
    let (_m, a) = m.step(Event::Failed { errno: 13 });
    assert_eq!(a, Action::Done { result: Err(BackupError::ErrorStatus) });
}

/// A deletion failure after a successful run is reported.
#[test]
fn deletion_error_after_success_is_reported() {
    let (m, _) = start(true, false);
    let (m, _) = m.step(Event::Opened { fd: 3 });
    let (m, _) = m.step(Event::Opened { fd: 4 });
    let (m, _) = m.step(Event::FsType { f_type: 0x9123683e });
    let (m, _) = m.step(Event::Inode { is_dir: true, ino: 256 });
    let (m, _) = m.step(Event::Succeeded);
    let (m, _) = m.step(Event::Opened { fd: 5 });
    let (m, _) = m.step(Event::Exited { status: TermStatus::Exited(0) });
    let (m, _) = m.step(Event::Flags { flags: 0b10 });
    let (m, _) = m.step(Event::Succeeded);
    let (m, _) = m.step(Event::SubvolId { id: 9 });
    let (_m, a) = m.step(Event::Failed { errno: 13 });
    assert_eq!(
        a,
        Action::Done {
            result: Err(BackupError::SnapshotDelete(BtrfsError::Syscall(13)))
        }
    );
}

/// Without snapshotting, the command runs rooted at the live source and no
/// snapshot operation happens at all.
#[test]
fn plain_run_without_snapshot() {
    let (m, a) = start(false, false);
    assert!(matches!(a, Action::OpenRoot { .. }));
    let (m, a) = m.step(Event::Opened { fd: 3 });
    assert!(matches!(a, Action::RunCommand { dir_fd: 3, .. }));
    let (_m, a) = m.step(Event::Exited { status: TermStatus::Exited(0) });
    assert_eq!(a, Action::Done { result: Ok(false) });
}

/// A failure to open the archive root aborts the run at once.
#[test]
fn open_root_failure_aborts() {
    let (m, _) = start(true, true);
    let (_m, a) = m.step(Event::Failed { errno: 2 });
    assert_eq!(a, Action::Done { result: Err(BackupError::OpenArchiveRoot(2)) });
}
