//! Tests for the classification of the archival command's log stream.

use borgify::check::{handle_output, Error};

/// Tests `handle_output` with no lines.
#[test]
fn test_handle_output_empty() {
    const OUTPUT: &[u8] = b"";
    match handle_output(OUTPUT) {
        Ok(()) => (),
        Err(e) => panic!("unexpected error {e:?}"),
    }
}

/// Tests `handle_output` with a debug-level log message.
///
/// The message should not affect the result; the check should pass.
#[test]
fn test_handle_output_debug() {
    const OUTPUT: &[u8] = br#"{"message": "35 self tests completed in 0.08 seconds", "type": "log_message", "created": 1488278449.5575905, "levelname": "DEBUG", "name": "borg.archiver"}"#;
    match handle_output(OUTPUT) {
        Ok(()) => (),
        Err(e) => panic!("unexpected error {e:?}"),
    }
}

/// Tests `handle_output` with an invalid passphrase log message.
#[test]
fn test_handle_output_passphrase() {
    const OUTPUT: &[u8] = br#"{"type": "log_message", "time": 1673159674.6615226, "message": "passphrase supplied in BORG_PASSPHRASE, by BORG_PASSCOMMAND or via BORG_PASSPHRASE_FD is incorrect.", "levelname": "ERROR", "name": "borg.archiver", "msgid": "PassphraseWrong"}"#;
    match handle_output(OUTPUT) {
        Ok(()) => panic!("unexpected success"),
        Err(Error::Passphrase) => (),
        Err(e) => panic!("unexpected error {e:?}"),
    }
}

/// Tests `handle_output` with a different error.
#[test]
fn test_handle_output_error() {
    const OUTPUT: &[u8] = br#"{"type": "log_message", "time": 1673159749.4641619, "message": "Repository /some/path does not exist.", "levelname": "ERROR", "name": "borg.archiver", "msgid": "Repository.DoesNotExist"}"#;
    match handle_output(OUTPUT) {
        Ok(()) => panic!("unexpected success"),
        Err(Error::Repository(msg)) if msg == "Repository /some/path does not exist." => (),
        Err(e) => panic!("unexpected error {e:?}"),
    }
}

/// Tests `handle_output` with a debug message followed by an error.
#[test]
fn test_handle_output_debug_and_error() {
    const OUTPUT: &[u8] = br#"{"message": "35 self tests completed in 0.08 seconds", "type": "log_message", "created": 1488278449.5575905, "levelname": "DEBUG", "name": "borg.archiver"}
{"type": "log_message", "time": 1673159749.4641619, "message": "Repository /some/path does not exist.", "levelname": "ERROR", "name": "borg.archiver", "msgid": "Repository.DoesNotExist"}"#;
    match handle_output(OUTPUT) {
        Ok(()) => panic!("unexpected success"),
        Err(Error::Repository(msg)) if msg == "Repository /some/path does not exist." => (),
        Err(e) => panic!("unexpected error {e:?}"),
    }
}

/// Tests `handle_output` with two errors.
#[test]
fn test_handle_output_two_errors() {
    const OUTPUT: &[u8] = br#"{"type": "log_message", "time": 1673159749.4641619, "message": "The first message", "levelname": "ERROR", "name": "borg.archiver"}
{"type": "log_message", "time": 1673159749.4641619, "message": "The second message", "levelname": "ERROR", "name": "borg.archiver"}"#;
    match handle_output(OUTPUT) {
        Ok(()) => panic!("unexpected success"),
        Err(Error::Repository(msg)) if msg == "The first message" => (),
        Err(e) => panic!("unexpected error {e:?}"),
    }
}

/// Tests `handle_output` with a passphrase error and some other error.
///
/// The other error is considered more important.
#[test]
fn test_handle_output_passphrase_and_other_error() {
    const OUTPUT: &[u8] = br#"{"type": "log_message", "time": 1673159674.6615226, "message": "passphrase supplied in BORG_PASSPHRASE, by BORG_PASSCOMMAND or via BORG_PASSPHRASE_FD is incorrect.", "levelname": "ERROR", "name": "borg.archiver", "msgid": "PassphraseWrong"}
{"type": "log_message", "time": 1673159749.4641619, "message": "The second message", "levelname": "ERROR", "name": "borg.archiver"}"#;
    match handle_output(OUTPUT) {
        Ok(()) => panic!("unexpected success"),
        Err(Error::Repository(msg)) if msg == "The second message" => (),
        Err(e) => panic!("unexpected error {e:?}"),
    }
}

/// Tests `handle_output` with a line of invalid JSON.
#[test]
fn test_handle_output_invalid_json() {
    const OUTPUT: &[u8] = b"{";
    match handle_output(OUTPUT) {
        Ok(()) => panic!("unexpected success"),
        Err(Error::Json) => (),
        Err(e) => panic!("unexpected error {e:?}"),
    }
}
