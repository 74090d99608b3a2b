use keybase::keybase::cmd::{
    find_keybase, finish_execution, logout_request, status_request, version_request, ExecEvent,
    ExecutionResult,
};
use keybase::keybase::error::Error;

fn completed(stdout: &[u8], exit_succeeded: bool) -> ExecEvent {
    ExecEvent::Completed(ExecutionResult { stdout_bytes: stdout.to_vec(), exit_succeeded })
}

#[test]
fn finish_execution_spawn_failure() {
    assert_eq!(finish_execution(ExecEvent::SpawnFailed), Err(Error::ProcessSpawnFailed));
}

#[test]
fn finish_execution_stdin_write_failure() {
    assert_eq!(finish_execution(ExecEvent::StdinWriteFailed), Err(Error::StdinWriteFailed));
}

#[test]
fn finish_execution_nonzero_exit_never_returns_output() {
    let r = finish_execution(completed(b"looks like output", false));
    assert_eq!(r, Err(Error::NonZeroExit));
}

#[test]
fn finish_execution_decodes_zero_exit_output() {
    let r = finish_execution(completed("ok \u{e9}".as_bytes(), true));
    assert_eq!(r.unwrap(), "ok \u{e9}");
}

#[test]
fn finish_execution_empty_output_is_empty_text() {
    assert_eq!(finish_execution(completed(b"", true)).unwrap(), "");
}

#[test]
fn finish_execution_invalid_utf8_is_encoding_error() {
    let r = finish_execution(completed(&[0xff, 0xfe, 0x20], true));
    assert_eq!(r, Err(Error::InvalidTextEncoding));
}

#[test]
fn find_keybase_trims_trailing_newline() {
    let r = find_keybase(completed(b"/usr/local/bin/keybase\n", true));
    assert_eq!(r.unwrap(), "/usr/local/bin/keybase");
}

#[test]
fn find_keybase_trims_surrounding_whitespace() {
    let r = find_keybase(completed(b" \t/opt/keybase \r\n", true));
    assert_eq!(r.unwrap(), "/opt/keybase");
}

#[test]
fn find_keybase_empty_output_is_not_found() {
    assert_eq!(find_keybase(completed(b"", true)), Err(Error::BinaryNotFound));
}

#[test]
fn find_keybase_whitespace_only_output_is_not_found() {
    assert_eq!(find_keybase(completed(b" \n\t\r", true)), Err(Error::BinaryNotFound));
}

#[test]
fn find_keybase_nonzero_exit_is_not_found() {
    assert_eq!(
        find_keybase(completed(b"/usr/bin/keybase\n", false)),
        Err(Error::BinaryNotFound)
    );
}

#[test]
fn find_keybase_failed_search_mechanism_is_not_found() {
    assert_eq!(find_keybase(ExecEvent::SpawnFailed), Err(Error::BinaryNotFound));
}

#[test]
fn find_keybase_unreadable_output_is_not_found() {
    assert_eq!(find_keybase(completed(&[0xff, 0xfe], true)), Err(Error::BinaryNotFound));
}

#[test]
fn status_request_argument_vector() {
    let r = status_request();
    assert_eq!(r.args, vec!["status", "-j"]);
    assert!(r.stdin_payload.is_none());
}

#[test]
fn version_request_argument_vector() {
    let r = version_request();
    assert_eq!(r.args, vec!["version", "-S", "-f", "s"]);
    assert!(r.stdin_payload.is_none());
}

#[test]
fn logout_request_argument_vector() {
    let r = logout_request();
    assert_eq!(r.args, vec!["logout"]);
    assert!(r.stdin_payload.is_none());
}

#[test]
fn error_messages_name_each_failure() {
    assert_eq!(Error::NonZeroExit.message(), "keybase returned non-zero exit code");
    assert_eq!(Error::BinaryNotFound.message(), "could not locate the keybase binary");
    assert_eq!(Error::ProcessSpawnFailed.message(), "failed to start the keybase process");
    assert_eq!(Error::StdinWriteFailed.message(), "failed to write the stdin payload");
    assert_eq!(Error::InvalidTextEncoding.message(), "failed to decode output as utf-8");
    assert_eq!(Error::MalformedStatusDocument.message(), "failed to parse the status document");
    assert_eq!(
        Error::InvalidFieldEncoding.message(),
        "the provisioned-state field was not zero or one"
    );
}

#[test]
fn find_keybase_is_deterministic_for_one_environment() {
    let outcome = b"/usr/local/bin/keybase\n";
    let first = find_keybase(completed(outcome, true));
    let second = find_keybase(completed(outcome, true));
    assert_eq!(first, second);
    assert_eq!(first.unwrap(), "/usr/local/bin/keybase");
}
