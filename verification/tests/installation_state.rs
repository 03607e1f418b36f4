use std::time::Duration;

use selfie::command::{CommandError, CommandOutput, CommandRunner, MockCommandRunner, MockCommandRunnerExt};
use selfie::domain::installation::{Installation, InstallationError, InstallationReport, InstallationStatus};
use selfie::domain::package::EnvironmentConfig;

fn create_test_env_config() -> EnvironmentConfig {
    EnvironmentConfig {
        install: "test install".to_string(),
        check: Some("test check".to_string()),
        dependencies: Vec::new(),
    }
}

#[test]
fn test_installation_state_transitions() {
    let env_config = create_test_env_config();

    let installation = Installation::new(env_config.clone());
    assert!(matches!(installation, Installation::NotStarted { .. }));

    let installation = installation.start();
    assert!(matches!(installation, Installation::Checking { .. }));

    let installation = installation.mark_not_already_installed();
    assert!(matches!(installation, Installation::NotAlreadyInstalled { .. }));

    let installation = installation.start_installing();
    assert!(matches!(installation, Installation::Installing { .. }));

    let output = CommandOutput {
        stdout: "success".to_string(),
        stderr: String::new(),
        status: 0,
        success: true,
        duration: Duration::from_millis(200).as_nanos(),
    };
    let installation = installation.complete(output);
    assert!(matches!(installation, Installation::Complete { .. }));
}

#[test]
fn test_failed_state_transition() {
    let env_config = create_test_env_config();

    let installation = Installation::new(env_config.clone()).start();
    let failed = installation.fail("Test error".to_string());
    assert!(matches!(failed, Installation::Failed { .. }));

    let installation = Installation::new(env_config.clone())
        .start()
        .mark_not_already_installed()
        .start_installing();
    let failed = installation.fail("Install error".to_string());
    assert!(matches!(failed, Installation::Failed { .. }));
}

#[test]
fn test_into_result() {
    let env_config = create_test_env_config();

    let installation = Installation::new(env_config.clone())
        .start()
        .mark_already_installed();

    let result = installation.into_result("test-package".to_string()).unwrap();
    assert_eq!(result.package_name, "test-package");
    assert_eq!(result.status, InstallationStatus::AlreadyInstalled);

    let output = CommandOutput {
        stdout: "success".to_string(),
        stderr: String::new(),
        status: 0,
        success: true,
        duration: Duration::from_millis(200).as_nanos(),
    };

    let installation = Installation::new(env_config.clone())
        .start()
        .mark_not_already_installed()
        .start_installing()
        .complete(output);

    let result = installation.into_result("test-package".to_string()).unwrap();
    assert_eq!(result.status, InstallationStatus::Complete);
    assert!(result.command_output.is_some());

    let installation = Installation::new(env_config).start().fail("Test error".to_string());

    let result = installation.into_result("test-package".to_string()).unwrap_err();

    assert!(matches!(result, InstallationError::InstallationFailed(_)));
}

#[test]
fn test_installation_result_with_dependencies() {
    let result = InstallationReport {
        package_name: "main".to_string(),
        status: InstallationStatus::Complete,
        duration: Duration::from_secs(5).as_nanos(),
        command_output: None,
        dependencies: Vec::new(),
    };

    let dep1 = InstallationReport {
        package_name: "dep1".to_string(),
        status: InstallationStatus::Complete,
        duration: Duration::from_secs(3).as_nanos(),
        command_output: None,
        dependencies: Vec::new(),
    };

    let dep2 = InstallationReport {
        package_name: "dep2".to_string(),
        status: InstallationStatus::Complete,
        duration: Duration::from_secs(2).as_nanos(),
        command_output: None,
        dependencies: Vec::new(),
    };

    let result_with_deps = result.with_dependencies(vec![dep1, dep2]);

    assert_eq!(result_with_deps.dependencies.len(), 2);
    assert_eq!(result_with_deps.dependencies[0].package_name, "dep1");
    assert_eq!(result_with_deps.dependencies[1].package_name, "dep2");

    assert_eq!(result_with_deps.duration, Duration::from_secs(5).as_nanos());
    assert_eq!(result_with_deps.total_duration(), Duration::from_secs(10).as_nanos());
    assert_eq!(result_with_deps.dependency_duration(), Duration::from_secs(5).as_nanos());
}

#[test]
fn installation_check_step_outcomes() {
    let no_check = EnvironmentConfig { install: "i".to_string(), check: None, dependencies: vec![] };
    let state = Installation::new(no_check).start().execute_check(None).unwrap();
    assert!(matches!(state, Installation::NotAlreadyInstalled { .. }));

    let found = CommandOutput { stdout: "Package found".to_string(), stderr: String::new(), status: 0, success: true, duration: 1 };
    let state = Installation::new(create_test_env_config()).start().execute_check(Some(Ok(found))).unwrap();
    assert!(matches!(state, Installation::AlreadyInstalled { .. }));

    let missing = CommandOutput { stdout: String::new(), stderr: "Not found".to_string(), status: 1, success: false, duration: 1 };
    let state = Installation::new(create_test_env_config()).start().execute_check(Some(Ok(missing))).unwrap();
    assert!(matches!(state, Installation::NotAlreadyInstalled { .. }));

    let state = Installation::new(create_test_env_config())
        .start()
        .execute_check(Some(Err(CommandError::Timeout(Duration::from_secs(30).as_nanos()))))
        .unwrap();
    assert_eq!(state.status(), InstallationStatus::Failed("Check command failed: Command timed out after 30s".to_string()));

    let wrong = Installation::new(create_test_env_config()).execute_check(None);
    assert!(matches!(wrong, Err(InstallationError::InvalidState(m)) if m == "Can only execute check from Checking state"));
}

#[test]
fn installation_install_step_outcomes() {
    let ready = || Installation::new(create_test_env_config()).start().mark_not_already_installed();
    assert_eq!(ready().install_command(), Some("test install".to_string()));

    let ok = CommandOutput { stdout: "done".to_string(), stderr: String::new(), status: 0, success: true, duration: 5 };
    let state = ready().execute_install(Some(Ok(ok))).unwrap();
    assert_eq!(state.status(), InstallationStatus::Complete);

    let bad = CommandOutput { stdout: String::new(), stderr: "oops".to_string(), status: -2, success: false, duration: 5 };
    let state = ready().execute_install(Some(Ok(bad))).unwrap();
    assert_eq!(state.status(), InstallationStatus::Failed("Install command failed with status -2".to_string()));

    let state = ready().execute_install(Some(Err(CommandError::IoError("broken pipe".to_string())))).unwrap();
    assert_eq!(state.status(), InstallationStatus::Failed("Install command error: IO error: broken pipe".to_string()));

    let skipped = Installation::new(create_test_env_config()).skip("not needed".to_string());
    assert_eq!(skipped.duration(), Some(0));
    let report = skipped.into_result("p".to_string()).unwrap();
    assert_eq!(report.status, InstallationStatus::Skipped("not needed".to_string()));

    let not_started = Installation::new(create_test_env_config());
    assert!(not_started.duration().is_none());
    assert!(matches!(
        not_started.into_result("p".to_string()),
        Err(InstallationError::InvalidState(m)) if m == "Invalid state transition: NotStarted"
    ));
}

#[test]
fn test_execute_check_success() {
    let env_config = create_test_env_config();
    let installation = Installation::new(env_config).start();

    let mut runner = MockCommandRunner::new();
    runner.success_response("test check", "Package found");

    let check = installation.check_command().unwrap();
    let result = installation.execute_check(Some(runner.execute(&check)));
    assert!(result.is_ok());

    let state = result.unwrap();
    assert!(matches!(state, Installation::AlreadyInstalled { .. }));
}

#[test]
fn test_execute_check_not_found() {
    let env_config = create_test_env_config();
    let installation = Installation::new(env_config).start();

    let mut runner = MockCommandRunner::new();
    runner.error_response("test check", "Not found", 1);

    let check = installation.check_command().unwrap();
    let result = installation.execute_check(Some(runner.execute(&check)));
    assert!(result.is_ok());

    let state = result.unwrap();
    assert!(matches!(state, Installation::NotAlreadyInstalled { .. }));
}

#[test]
fn installation_runs_check_and_install_commands() {
    let mut runner = MockCommandRunner::new();
    runner.error_response("test check", "Not found", 1);
    runner.success_response("test install", "done");

    let state = Installation::new(create_test_env_config()).start().run_check(&runner).unwrap();
    assert!(matches!(state, Installation::NotAlreadyInstalled { .. }));
    let state = state.run_install(&runner).unwrap();
    assert_eq!(state.status(), InstallationStatus::Complete);

    let mut found = MockCommandRunner::new();
    found.success_response("test check", "ok");
    let state = Installation::new(create_test_env_config()).start().run_check(&found).unwrap();
    assert!(matches!(state, Installation::AlreadyInstalled { .. }));

    let wrong = Installation::new(create_test_env_config()).run_check(&found);
    assert!(matches!(wrong, Err(InstallationError::InvalidState(_))));
    let wrong = Installation::new(create_test_env_config()).run_install(&found);
    assert!(matches!(wrong, Err(InstallationError::InvalidState(_))));
}
