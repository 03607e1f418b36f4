use std::time::Duration;

use selfie::command::{CommandError, CommandRunner, MockCommandRunner, MockCommandRunnerExt, ShellCommandRunner};

#[test]
fn test_mock_command_runner_success() {
    let mut runner = MockCommandRunner::new();
    runner.success_response("echo hello", "hello");

    let output = runner.execute("echo hello").unwrap();
    assert_eq!(output.stdout, "hello");
    assert_eq!(output.stderr, "");
    assert_eq!(output.status, 0);
    assert!(output.success);
}

#[test]
fn test_mock_command_runner_error() {
    let mut runner = MockCommandRunner::new();
    runner.error_response("invalid command", "command not found", 127);

    let output = runner.execute("invalid command").unwrap();
    assert_eq!(output.stdout, "");
    assert_eq!(output.stderr, "command not found");
    assert_eq!(output.status, 127);
    assert!(!output.success);
}

#[test]
fn test_mock_command_runner_timeout() {
    let mut runner = MockCommandRunner::new();
    let timeout = Duration::from_secs(30).as_nanos();
    runner.timeout_response("slow command", timeout);

    let result = runner.execute("slow command");
    assert!(matches!(result, Err(CommandError::Timeout(_))));
    if let Err(CommandError::Timeout(duration)) = result {
        assert_eq!(duration, timeout);
    }
}

#[test]
fn test_mock_command_availability() {
    let mut runner = MockCommandRunner::new();
    runner.add_command("available");

    assert!(runner.is_command_available("available"));
    assert!(!runner.is_command_available("not_available"));
}

#[test]
fn command_error_messages() {
    assert_eq!(
        CommandError::Timeout(Duration::from_millis(1500).as_nanos()).to_string(),
        "Command timed out after 1.5s"
    );
    assert_eq!(
        CommandError::ExecutionError("x".to_string()).to_string(),
        "Command execution failed: x"
    );
    assert_eq!(
        CommandError::InterruptedError("y".to_string()).to_string(),
        "Command interrupted: y"
    );
}

#[test]
fn command_unscripted_is_an_error() {
    let runner = MockCommandRunner::new();
    assert!(matches!(
        runner.execute_with_timeout("nothing", 5),
        Err(CommandError::ExecutionError(m)) if m == "No response scripted for command: nothing"
    ));
}

#[test]
fn command_shell_runner_settings_and_decisions() {
    let runner = ShellCommandRunner::new("/bin/sh", Duration::from_secs(10).as_nanos())
        .with_env_var("A", "1")
        .with_env_var("B", "2")
        .with_env_var("A", "3");
    assert_eq!(runner.shell(), "/bin/sh");
    assert_eq!(runner.default_timeout(), Duration::from_secs(10).as_nanos());
    assert_eq!(
        runner.environment(),
        &vec![("A".to_string(), "3".to_string()), ("B".to_string(), "2".to_string())]
    );
    assert_eq!(
        ShellCommandRunner::availability_command("rg"),
        "command -v rg >/dev/null 2>&1"
    );
    let late = ShellCommandRunner::finish_run(String::new(), String::new(), 0, true, 11, 10);
    assert!(matches!(late, Err(CommandError::Timeout(10))));
    let done = ShellCommandRunner::finish_run("out".to_string(), String::new(), 0, true, 10, 10).unwrap();
    assert_eq!(done.stdout, "out");
    assert!(ShellCommandRunner::availability_from(&Ok(done)));
    assert!(!ShellCommandRunner::availability_from(&late));
}

#[test]
fn shell_process_output_decodes_lossily() {

    let out = ShellCommandRunner::process_output(b"hi\xff", b"err", None, false, 7);
    assert_eq!(out.stdout, "hi\u{FFFD}");
    assert_eq!(out.stderr, "err");
    assert_eq!(out.status, -1);
    assert!(!out.success);
    assert_eq!(out.duration, 7);
    let ok = ShellCommandRunner::process_output("é".as_bytes(), b"", Some(0), true, 1);
    assert_eq!(ok.stdout, "é");
    assert_eq!(ok.status, 0);
}

#[test]
fn shell_time_left_until_timeout() {
    assert_eq!(ShellCommandRunner::time_left(100, 30), Some(70));
    assert_eq!(ShellCommandRunner::time_left(100, 100), None);
    assert_eq!(ShellCommandRunner::time_left(100, 250), None);
}
