use golemsp::command::CommandSpec;
use golemsp::error::{CommandError, DecodeError, ExecutionError, LocationError};
use golemsp::network::{LookupError, NetworkName};

fn command() -> CommandSpec {
    CommandSpec {
        program: "/opt/bin/yagna".to_string(),
        args: vec!["payment".to_string(), "status".to_string(), "--json".to_string()],
        env: Vec::new(),
    }
}

#[test]
fn a_command_is_shown_as_one_line() {
    assert_eq!(command().render(), "/opt/bin/yagna payment status --json");
    assert_eq!(CommandSpec::new("yagna".to_string()).render(), "yagna");
    let mut spaced = CommandSpec::new("ya-provider".to_string());
    spaced.arg("");
    spaced.arg("a b");
    assert_eq!(spaced.render(), "ya-provider  a b");
}

#[test]
fn a_failed_exit_is_told_with_command_and_both_streams() {
    let failure = ExecutionError::Exit {
        command: command(),
        stdout: b"partial".to_vec(),
        stderr: b"Error: connection refused\n".to_vec(),
    };
    assert_eq!(
        failure.message(),
        "/opt/bin/yagna payment status --json failed.: Stdout:\npartial\nStderr:\nError: connection refused\n"
    );
    assert_eq!(CommandError::Execution(failure).message().lines().last(), Some("Error: connection refused"));
}

#[test]
fn streams_that_are_no_text_are_told_as_far_as_they_are() {
    let failure = ExecutionError::Exit {
        command: CommandSpec::new("yagna".to_string()),
        stdout: vec![b'o', 0xff, b'k'],
        stderr: Vec::new(),
    };
    assert_eq!(failure.message(), "yagna failed.: Stdout:\no\u{fffd}k\nStderr:\n");
}

#[test]
fn a_process_that_did_not_start_is_told_with_the_reason() {
    let failure = ExecutionError::Spawn {
        command: CommandSpec::new("yagna".to_string()),
        reason: "No such file or directory (os error 2)".to_string(),
    };
    assert_eq!(
        CommandError::Execution(failure).message(),
        "yagna failed.: No such file or directory (os error 2)"
    );
}

#[test]
fn output_that_does_not_decode_is_told() {
    let json = DecodeError::Json { output: b"oops".to_vec(), reason: "expected value".to_string() };
    assert_eq!(json.message(), "cannot parse reply: expected value");
    let banner = DecodeError::Banner { output: b"yagna ?".to_vec() };
    assert_eq!(CommandError::Decode(banner).message(), "cannot parse yagna version yagna ?");
    assert_eq!(
        DecodeError::Pattern.message(),
        "cannot read the pattern of the yagna version"
    );
}

#[test]
fn the_other_errors_are_told() {
    assert_eq!(
        CommandError::Location(LocationError::NoParent).message(),
        "Unable to resolve yagna binaries location"
    );
    assert_eq!(
        LocationError::NoExecutable.message(),
        "Unable to resolve the location of this program"
    );
    assert_eq!(
        CommandError::Lookup(LookupError { network: NetworkName::Mumbai }).message(),
        "Payment driver config for network 'mumbai' not found."
    );
    assert_eq!(CommandError::Remote("no default identity".to_string()).message(), "no default identity");
}
