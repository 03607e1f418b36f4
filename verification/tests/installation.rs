use selfie::command::{CommandError, MockCommandRunner, MockCommandRunnerExt};
use selfie::config::{Config, ConfigBuilder};
use selfie::domain::installation::{InstallationError, InstallationStatus};
use selfie::domain::package::{Package, PackageBuilder};
use selfie::installation::{Installation, InstallationManager};

fn create_test_package() -> Package {
    PackageBuilder::default()
        .name("test-package")
        .version("1.0.0")
        .environment_with_check("test-env", "test install", "test check")
        .build()
}

fn create_test_config() -> Config {
    ConfigBuilder::default()
        .environment("test-env")
        .package_directory("/test/path")
        .build()
}

#[test]
fn test_installation_status_updates() {
    let package = create_test_package();
    let env_config = package.environments.get("test-env").unwrap().clone();

    let mut installation = Installation::new(package, "test-env", env_config);
    assert_eq!(installation.status, InstallationStatus::NotStarted);

    installation.update_status(InstallationStatus::Checking);
    assert_eq!(installation.status, InstallationStatus::Checking);

    installation.update_status(InstallationStatus::Installing);
    assert_eq!(installation.status, InstallationStatus::Installing);

    installation.update_status(InstallationStatus::Complete);
    assert_eq!(installation.status, InstallationStatus::Complete);
}

#[test]
fn test_installation_timing() {
    let package = create_test_package();
    let env_config = package.environments.get("test-env").unwrap().clone();

    let mut installation = Installation::new(package, "test-env", env_config);
    assert!(installation.start_time.is_none());
    assert!(installation.duration.is_none());

    installation.start();
    assert!(installation.start_time.is_some());
    assert!(installation.duration.is_none());

    installation.complete(InstallationStatus::Complete);
    assert!(installation.duration.is_some());
}

#[test]
fn installation_test_execute_check_no_check_command() {
    let package = PackageBuilder::default()
        .name("test-package")
        .version("1.0.0")
        .environment("test-env", "test install")
        .build();

    let env_config = package.environments.get("test-env").unwrap().clone();
    let mut installation = Installation::new(package, "test-env", env_config);

    let runner = MockCommandRunner::new();

    let result = installation.execute_check(&runner);
    assert!(result.is_ok());
    assert!(!result.unwrap());
    assert_eq!(installation.status, InstallationStatus::NotInstalled);
}

#[test]
fn test_execute_check_installed() {
    let package = create_test_package();
    let env_config = package.environments.get("test-env").unwrap().clone();
    let mut installation = Installation::new(package, "test-env", env_config);

    let mut runner = MockCommandRunner::new();
    runner.success_response("test check", "Package found");

    let result = installation.execute_check(&runner);
    assert!(result.is_ok());
    assert!(result.unwrap());
    assert_eq!(installation.status, InstallationStatus::AlreadyInstalled);
}

#[test]
fn test_execute_check_not_installed() {
    let package = create_test_package();
    let env_config = package.environments.get("test-env").unwrap().clone();
    let mut installation = Installation::new(package, "test-env", env_config);

    let mut runner = MockCommandRunner::new();
    runner.error_response("test check", "Not found", 1);

    let result = installation.execute_check(&runner);
    assert!(result.is_ok());
    assert!(!result.unwrap());
    assert_eq!(installation.status, InstallationStatus::NotInstalled);
}

#[test]
fn test_execute_check_error() {
    let package = create_test_package();
    let env_config = package.environments.get("test-env").unwrap().clone();
    let mut installation = Installation::new(package, "test-env", env_config);

    let mut runner = MockCommandRunner::new();
    runner.add_response(
        "test check",
        Err(CommandError::ExecutionError("Command failed".to_string())),
    );

    let result = installation.execute_check(&runner);
    assert!(result.is_err());
    assert_eq!(
        installation.status,
        InstallationStatus::Failed("Command execution failed: Command failed".to_string())
    );
}

#[test]
fn installation_test_execute_install_success() {
    let package = create_test_package();
    let env_config = package.environments.get("test-env").unwrap().clone();
    let mut installation = Installation::new(package, "test-env", env_config);

    let mut runner = MockCommandRunner::new();
    runner.success_response("test install", "Installed successfully");

    let result = installation.execute_install(&runner);
    assert!(result.is_ok());
    assert_eq!(installation.status, InstallationStatus::Complete);
}

#[test]
fn installation_test_execute_install_failure() {
    let package = create_test_package();
    let env_config = package.environments.get("test-env").unwrap().clone();
    let mut installation = Installation::new(package, "test-env", env_config);

    let mut runner = MockCommandRunner::new();
    runner.error_response("test install", "Installation failed", 1);

    let result = installation.execute_install(&runner);
    assert!(result.is_err());
    assert!(matches!(installation.status, InstallationStatus::Failed(_)));
}

#[test]
fn test_execute_install_error() {
    let package = create_test_package();
    let env_config = package.environments.get("test-env").unwrap().clone();
    let mut installation = Installation::new(package, "test-env", env_config);

    let mut runner = MockCommandRunner::new();
    runner.add_response(
        "test install",
        Err(CommandError::ExecutionError("Command failed".to_string())),
    );

    let result = installation.execute_install(&runner);
    assert!(result.is_err());
    assert!(matches!(installation.status, InstallationStatus::Failed(_)));
}

#[test]
fn test_installation_manager_install_success() {
    let package = create_test_package();
    let config = create_test_config();

    let mut runner = MockCommandRunner::new();
    runner.error_response("test check", "Not found", 1);
    runner.success_response("test install", "Installed successfully");

    let manager = InstallationManager::new(&runner, &config);
    let result = manager.install_package(package);

    assert!(result.is_ok());
    let installation = result.unwrap();
    assert_eq!(installation.status, InstallationStatus::Complete);
}

#[test]
fn test_installation_manager_already_installed() {
    let package = create_test_package();
    let config = create_test_config();

    let mut runner = MockCommandRunner::new();
    runner.success_response("test check", "Found");

    let manager = InstallationManager::new(&runner, &config);
    let result = manager.install_package(package);

    assert!(result.is_ok());
    let installation = result.unwrap();
    assert_eq!(installation.status, InstallationStatus::AlreadyInstalled);
}

#[test]
fn test_installation_manager_install_failure() {
    let package = create_test_package();
    let config = create_test_config();

    let mut runner = MockCommandRunner::new();
    runner.error_response("test check", "Not found", 1);
    runner.error_response("test install", "Installation failed", 1);

    let manager = InstallationManager::new(&runner, &config);
    let result = manager.install_package(package);

    assert!(result.is_err());
}

#[test]
fn test_installation_manager_environment_incompatible() {
    let package = create_test_package();
    let config = ConfigBuilder::default()
        .environment("different-env")
        .package_directory("/test/path")
        .build();

    let runner = MockCommandRunner::new();
    let manager = InstallationManager::new(&runner, &config);
    let result = manager.install_package(package);

    assert!(result.is_err());
    assert!(matches!(
        result,
        Err(InstallationError::EnvironmentIncompatible(_))
    ));
}

#[test]
fn installation_failure_message_carries_status() {
    let package = create_test_package();
    let env_config = package.environments.get("test-env").unwrap().clone();
    let mut installation = Installation::new(package, "test-env", env_config);
    let mut runner = MockCommandRunner::new();
    runner.error_response("test install", "boom", 3);
    let err = installation.execute_install(&runner).unwrap_err();
    assert!(matches!(err, InstallationError::InstallationFailed(m) if m == "Install command failed with status 3"));
    assert_eq!(
        installation.status,
        InstallationStatus::Failed("Install command failed with status 3".to_string())
    );
}

#[test]
fn installation_incompatible_message() {
    let package = create_test_package();
    let config = ConfigBuilder::default().environment("other").package_directory("/p").build();
    let runner = MockCommandRunner::new();
    let manager = InstallationManager::new(&runner, &config);
    match manager.install_package(package) {
        Err(e @ InstallationError::EnvironmentIncompatible(_)) => {
            assert_eq!(e.to_string(), "Environment incompatible: Environment not found: other");
        }
        _ => panic!("expected an incompatible environment"),
    }
}
