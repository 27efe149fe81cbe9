//! Tests for termination-status classification, outcome combination, and
//! the exit handling of the reachability check.

use borgify::backup::{classify_exit, combine_outcomes, Error as BackupError, TermStatus};
use borgify::btrfs::Error as BtrfsError;
use borgify::check::{
    classify_records, finish_check, passphrase_retry_step, should_kill, Error as CheckError,
    LineRecord, LogLevel, RetryStep,
};

#[test]
fn classify_exit_code_zero_is_success_without_warnings() {
    assert_eq!(classify_exit(TermStatus::Exited(0)), Ok(false));
}

#[test]
fn classify_exit_code_one_is_success_with_warnings() {
    assert_eq!(classify_exit(TermStatus::Exited(1)), Ok(true));
}

#[test]
fn classify_exit_code_two_is_error() {
    assert_eq!(classify_exit(TermStatus::Exited(2)), Err(BackupError::ErrorStatus));
}

#[test]
fn classify_exit_other_code_is_unknown_exit_code() {
    assert_eq!(classify_exit(TermStatus::Exited(5)), Err(BackupError::UnknownExitCode(5)));
    assert_eq!(classify_exit(TermStatus::Exited(-3)), Err(BackupError::UnknownExitCode(-3)));
}

#[test]
fn classify_exit_signal_keeps_the_number() {
    assert_eq!(classify_exit(TermStatus::Signaled(9)), Err(BackupError::Signal(9)));
}

#[test]
fn classify_exit_unknown_termination() {
    assert_eq!(classify_exit(TermStatus::Unknown), Err(BackupError::Unknown));
}

#[test]
fn combine_success_with_success_merges_warnings() {
    assert_eq!(combine_outcomes(false, Ok(false), Ok(())), Ok(false));
    assert_eq!(combine_outcomes(true, Ok(false), Ok(())), Ok(true));
    assert_eq!(combine_outcomes(false, Ok(true), Ok(())), Ok(true));
}

#[test]
fn combine_reports_deletion_failure_after_success() {
    let delete_error = BackupError::SnapshotDelete(BtrfsError::Syscall(13));
    assert_eq!(
        combine_outcomes(false, Ok(true), Err(delete_error)),
        Err(BackupError::SnapshotDelete(BtrfsError::Syscall(13)))
    );
}

#[test]
fn combine_backup_error_wins_over_deletion_error() {
    let backup_error = BackupError::Signal(15);
    let delete_error = BackupError::SnapshotDelete(BtrfsError::Syscall(13));
    assert_eq!(
        combine_outcomes(true, Err(backup_error), Err(delete_error)),
        Err(BackupError::Signal(15))
    );
}

#[test]
fn combine_backup_error_alone_is_reported() {
    assert_eq!(
        combine_outcomes(false, Err(BackupError::ErrorStatus), Ok(())),
        Err(BackupError::ErrorStatus)
    );
}

#[test]
fn finish_check_exit_two_without_message() {
    assert_eq!(
        finish_check(Ok(()), TermStatus::Exited(2)),
        Err(CheckError::ErrorStatusWithoutMessage)
    );
}

#[test]
fn finish_check_captured_message_wins_over_exit_status() {
    let handled = Err(CheckError::Repository(String::from("boom")));
    assert_eq!(
        finish_check(handled, TermStatus::Exited(2)),
        Err(CheckError::Repository(String::from("boom")))
    );
}

#[test]
fn finish_check_exit_codes() {
    assert_eq!(finish_check(Ok(()), TermStatus::Exited(0)), Ok(()));
    assert_eq!(finish_check(Ok(()), TermStatus::Exited(1)), Ok(()));
    assert_eq!(
        finish_check(Ok(()), TermStatus::Exited(7)),
        Err(CheckError::UnknownExitCode(7))
    );
    assert_eq!(finish_check(Ok(()), TermStatus::Signaled(11)), Err(CheckError::Signal(11)));
    assert_eq!(finish_check(Ok(()), TermStatus::Unknown), Err(CheckError::Unknown));
}

#[test]
fn classify_records_prefers_first_error_message() {
    let records = vec![
        LineRecord::Other,
        LineRecord::Message {
            level: LogLevel::Warning,
            message: String::from("just a warning"),
            passphrase_wrong: false,
        },
        LineRecord::Message {
            level: LogLevel::Error,
            message: String::from("first"),
            passphrase_wrong: false,
        },
        LineRecord::Message {
            level: LogLevel::Critical,
            message: String::from("second"),
            passphrase_wrong: false,
        },
    ];
    assert_eq!(classify_records(records), Err(CheckError::Repository(String::from("first"))));
}

#[test]
fn classify_records_passphrase_only() {
    let records = vec![LineRecord::Message {
        level: LogLevel::Error,
        message: String::from("wrong passphrase"),
        passphrase_wrong: true,
    }];
    assert_eq!(classify_records(records), Err(CheckError::Passphrase));
}

#[test]
fn classify_records_nothing_of_note_passes() {
    let records = vec![
        LineRecord::Other,
        LineRecord::Message {
            level: LogLevel::Info,
            message: String::from("hello"),
            passphrase_wrong: false,
        },
    ];
    assert_eq!(classify_records(records), Ok(()));
}

#[test]
fn should_kill_only_on_io_or_decode_errors() {
    assert!(should_kill(&Err(CheckError::Json)));
    assert!(should_kill(&Err(CheckError::Spawn(32))));
    assert!(!should_kill(&Err(CheckError::Passphrase)));
    assert!(!should_kill(&Ok(())));
}

#[test]
fn passphrase_retry_decisions() {
    assert_eq!(passphrase_retry_step(Ok(())), RetryStep::Accept);
    assert_eq!(passphrase_retry_step(Err(CheckError::Passphrase)), RetryStep::Prompt);
    assert_eq!(
        passphrase_retry_step(Err(CheckError::Signal(9))),
        RetryStep::Fail(CheckError::Signal(9))
    );
}

#[test]
fn backup_error_messages_render_numbers() {
    assert_eq!(
        BackupError::UnknownExitCode(42).message(),
        "borg returned unknown exit code 42"
    );
    assert_eq!(
        BackupError::Signal(15).message(),
        "borg terminated due to signal 15"
    );
    assert_eq!(
        BackupError::UnknownExitCode(-7).message(),
        "borg returned unknown exit code -7"
    );
    assert_eq!(
        BackupError::ErrorStatus.message(),
        "borg returned exit code 2 (error) without an error message"
    );
}

#[test]
fn check_error_messages() {
    assert_eq!(CheckError::Passphrase.message(), "incorrect passphrase");
    assert_eq!(
        CheckError::Repository(String::from("Repository x does not exist.")).message(),
        "Repository x does not exist."
    );
    assert_eq!(CheckError::UnknownExitCode(3).message(), "borg returned unknown exit code 3");
}

#[test]
fn check_plan_is_exact() {
    let plan = borgify::check::build_check_plan("/path/to/repo", 0o077, 5);
    assert_eq!(plan.program, "borg");
    let expected: Vec<String> = ["--log-json", "--umask", "077", "info"]
        .iter()
        .map(|s| String::from(*s))
        .collect();
    assert_eq!(plan.args, expected);
    let expected_env = vec![
        (String::from("BORG_PASSPHRASE_FD"), String::from("5")),
        (String::from("BORG_REPO"), String::from("/path/to/repo")),
    ];
    assert_eq!(plan.env, expected_env);
}
