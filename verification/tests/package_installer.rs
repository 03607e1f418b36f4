use std::time::Duration;

use selfie::command::{CommandOutput, MockCommandRunner, MockCommandRunnerExt};
use selfie::config::{Config, ConfigBuilder};
use selfie::domain::package::{EnvironmentMap, Package};
use selfie::installation::InstallationManager;
use selfie::package_installer::dependency::DependencyResolver;
use selfie::ports::package_repo::MockPackageRepository;
use selfie::domain::installation::{InstallationError, InstallationStatus};
use selfie::domain::package::{EnvironmentConfig, PackageBuilder};
use selfie::installation::Installation;
use selfie::package_installer::{
    final_summary, found_packages_message, installing_dependency_message, installing_message, installing_package_message,
    installing_with_dependencies_message, single_package_result, status_debug, InstallRun,
    InstallStep, InstallationResult, PackageInstallerError, SummaryEnd,
};

fn nanos(d: Duration) -> u128 {
    d.as_nanos()
}

fn output() -> CommandOutput {
    CommandOutput { stdout: "ok".to_string(), stderr: String::new(), status: 0, success: true, duration: 0 }
}

fn package(name: &str) -> selfie::domain::package::Package {
    PackageBuilder::default().name(name).version("1.0.0").environment("test-env", "echo install").build()
}

fn installation(name: &str, status: InstallationStatus) -> Installation {
    let config = EnvironmentConfig { install: "echo install".to_string(), check: None, dependencies: vec![] };
    let mut i = Installation::new(package(name), "test-env", config);
    i.update_status(status);
    i
}

#[test]
fn installer_result_with_dependencies() {
    let dep = InstallationResult::success("dep", nanos(Duration::from_millis(300)), None);
    let main = InstallationResult::success("main", nanos(Duration::from_millis(700)), Some(output()))
        .with_dependencies(vec![dep]);
    assert_eq!(main.dependencies.len(), 1);
    assert_eq!(main.total_duration(), nanos(Duration::from_millis(1000)));
    assert_eq!(main.dependency_duration(), nanos(Duration::from_millis(300)));
    assert_eq!(main.command_output.as_ref().unwrap().stdout, "ok");
}

#[test]
fn installer_result_constructors() {
    let a = InstallationResult::already_installed("a", 5);
    assert_eq!(a.status, InstallationStatus::AlreadyInstalled);
    assert_eq!(a.duration, 5);
    assert!(a.command_output.is_none());
    let f = InstallationResult::failed("f", InstallationStatus::Failed("boom".to_string()), 7);
    assert_eq!(f.status, InstallationStatus::Failed("boom".to_string()));
    assert_eq!(f.package_name, "f");
}

#[test]
fn installer_dependency_duration_counts_nested_dependencies() {
    let inner = InstallationResult::success("inner", 10, None);
    let mid = InstallationResult::success("mid", 20, None).with_dependencies(vec![inner]);
    let top = InstallationResult::success("top", 40, None).with_dependencies(vec![mid]);
    assert_eq!(top.dependency_duration(), 30);
    assert_eq!(top.total_duration(), 60);
}

#[test]
fn installer_status_debug() {
    assert_eq!(status_debug(&InstallationStatus::NotInstalled), "NotInstalled");
    assert_eq!(status_debug(&InstallationStatus::Failed("x \"y\"".to_string())), "Failed(\"x \\\"y\\\"\")");
    assert_eq!(status_debug(&InstallationStatus::Skipped("s".to_string())), "Skipped(\"s\")");
    assert_eq!(
        format!("{:?}", InstallationStatus::Failed("x \"y\"".to_string())),
        status_debug(&InstallationStatus::Failed("x \"y\"".to_string()))
    );
}

#[test]
fn installer_single_package_result() {
    let (r, shown) = single_package_result("p", &Ok(installation("p", InstallationStatus::Complete)), 9);
    assert_eq!(r.status, InstallationStatus::Complete);
    assert_eq!(shown, InstallationStatus::Complete);
    assert_eq!(r.duration, 9);

    let (r, _) = single_package_result("p", &Ok(installation("p", InstallationStatus::AlreadyInstalled)), 1);
    assert_eq!(r.status, InstallationStatus::AlreadyInstalled);

    let (r, shown) = single_package_result("p", &Ok(installation("p", InstallationStatus::NotInstalled)), 1);
    assert_eq!(r.status, InstallationStatus::Failed("Installation failed: NotInstalled".to_string()));
    assert_eq!(shown, InstallationStatus::NotInstalled);

    let err = InstallationError::InstallationFailed("exit 1".to_string());
    let (r, shown) = single_package_result("p", &Err(err), 1);
    assert_eq!(r.status, InstallationStatus::Failed("Installation error: Installation failed: exit 1".to_string()));
    assert_eq!(shown, InstallationStatus::Failed("Installation failed: exit 1".to_string()));
}

#[test]
fn installer_run_installs_dependencies_then_package() {
    let mut run = InstallRun::new(vec![package("dep1"), package("dep2"), package("main")]);
    assert_eq!(run.dependency_count(), 2);
    assert!(matches!(run.next_step(), InstallStep::InstallDependency(0)));
    assert!(run.record_dependency(Ok(InstallationResult::success("dep1", 10, None))).is_ok());
    assert!(matches!(run.next_step(), InstallStep::InstallDependency(1)));
    assert!(run.record_dependency(Ok(InstallationResult::already_installed("dep2", 5))).is_ok());
    assert!(matches!(run.next_step(), InstallStep::InstallPackage(2)));
    let result = run.record_package(Ok(InstallationResult::success("main", 20, None)), 100).unwrap();
    assert!(matches!(run.next_step(), InstallStep::Finished));
    assert_eq!(result.duration, 100);
    assert_eq!(result.dependencies.len(), 2);
    assert_eq!(result.dependencies[0].package_name, "dep1");
    assert_eq!(result.dependencies[1].status, InstallationStatus::AlreadyInstalled);
}

#[test]
fn installer_run_stops_at_failing_dependency() {
    let mut run = InstallRun::new(vec![package("dep1"), package("main")]);
    let failed = InstallationResult::failed("dep1", InstallationStatus::Failed("boom".to_string()), 1);
    match run.record_dependency(Ok(failed)) {
        Err(PackageInstallerError::InstallationError(InstallationError::InstallationFailed(m))) => {
            assert_eq!(m, "Dependency 'dep1' installation failed: Failed(\"boom\")");
        }
        other => panic!("unexpected {:?}", other),
    }
    assert!(matches!(run.next_step(), InstallStep::Finished));
}

#[test]
fn installer_run_passes_errors_on() {
    let mut run = InstallRun::new(vec![package("dep1"), package("main")]);
    let r = run.record_dependency(Err(PackageInstallerError::InstallationCanceled));
    assert!(matches!(r, Err(PackageInstallerError::InstallationCanceled)));
    assert!(matches!(run.next_step(), InstallStep::Finished));
}

#[test]
fn installer_final_summary_plain() {
    let dep = InstallationResult::success("dep", nanos(Duration::from_millis(500)), None);
    let main = InstallationResult::success("main", nanos(Duration::from_millis(1500)), None).with_dependencies(vec![dep]);
    let s = final_summary(&main, false);
    assert_eq!(s.lines, vec!["Total time: 2.0s".to_string(), "Dependencies: 500.0ms".to_string(), "Package: 1.5s".to_string()]);
    assert_eq!(s.end, SummaryEnd::Complete);
    assert_eq!(s.message.unwrap(), "Successfully installed 'main' and 1 dependencies");

    let done = InstallationResult::already_installed("x", nanos(Duration::from_secs(1)));
    let s = final_summary(&done, false);
    assert_eq!(s.lines, vec!["Total time: 1.0s".to_string()]);
    assert_eq!(s.end, SummaryEnd::Done);
    assert!(s.message.is_none());

    let failed = InstallationResult::failed("y", InstallationStatus::Failed("e".to_string()), 0);
    let s = final_summary(&failed, false);
    assert_eq!(s.end, SummaryEnd::Failed);
    assert_eq!(s.message.unwrap(), "Failed to install 'y'");
}

#[test]
fn installer_messages() {
    assert_eq!(found_packages_message(1, false), None);
    assert_eq!(
        found_packages_message(3, false).unwrap(),
        "Found 3 packages to install (including 2 dependencies)"
    );
    assert_eq!(installing_message("rg", false), "Installing 'rg'");
    assert_eq!(installing_message("rg", true), format!("Installing '{}'", "\u{1b}[35m\u{1b}[1mrg\u{1b}[0m"));
}

#[test]
fn installer_error_messages() {
    assert_eq!(PackageInstallerError::InstallationCanceled.to_string(), "Installation canceled by user");
    assert_eq!(
        PackageInstallerError::InstallationError(InstallationError::CheckFailed("x".to_string())).to_string(),
        "Installation error: Check command failed: x"
    );
    assert_eq!(PackageInstallerError::EnvironmentError("e".to_string()).to_string(), "Environment error: e");
}

fn create_test_config() -> Config {
    ConfigBuilder::default().environment("test-env").package_directory("/test/packages").build()
}

/// A package for the test environment with install and check commands and dependencies.
fn test_package(name: &str, install: &str, check: &str, dependencies: &[&str]) -> Package {
    let mut environments = EnvironmentMap::new();
    environments.insert(
        "test-env".to_string(),
        EnvironmentConfig {
            install: install.to_string(),
            check: Some(check.to_string()),
            dependencies: dependencies.iter().map(|d| d.to_string()).collect(),
        },
    );
    Package {
        name: name.to_string(),
        version: "1.0.0".to_string(),
        homepage: None,
        description: None,
        environments,
        path: format!("/test/packages/{}.yaml", name),
    }
}

/// Install a package and its dependencies: resolved, then installed
/// dependencies first, each outcome recorded by the run.
fn install_package(
    repo: &MockPackageRepository,
    runner: &MockCommandRunner,
    config: &Config,
    package_name: &str,
) -> Result<InstallationResult, PackageInstallerError> {
    let resolver = DependencyResolver::new(repo, config);
    let packages = resolver.resolve_dependencies(package_name).map_err(PackageInstallerError::from)?;
    let manager = InstallationManager::new(runner, config);
    let mut run = InstallRun::new(packages);
    loop {
        match run.next_step() {
            InstallStep::InstallDependency(i) => {
                let package = run.packages()[i].clone();
                let installed = manager.install_package(package.clone());
                let (result, _) = single_package_result(&package.name, &installed, 1);
                run.record_dependency(Ok(result))?;
            }
            InstallStep::InstallPackage(i) => {
                let package = run.packages()[i].clone();
                let installed = manager.install_package(package.clone());
                let (result, _) = single_package_result(&package.name, &installed, 1);
                return run.record_package(Ok(result), 10);
            }
            InstallStep::Finished => return Err(PackageInstallerError::InstallationCanceled),
        }
    }
}

#[test]
fn test_install_package_success() {
    let mut repo = MockPackageRepository::new();
    repo.mock_get_package_ok("ripgrep", test_package("ripgrep", "test install", "test check", &[]));
    let mut runner = MockCommandRunner::new();
    runner.error_response("test check", "Not found", 1);
    runner.success_response("test install", "Installed successfully");

    let result = install_package(&repo, &runner, &create_test_config(), "ripgrep");

    assert!(result.is_ok());
    let install_result = result.unwrap();
    assert_eq!(install_result.package_name, "ripgrep");
    assert_eq!(install_result.status, InstallationStatus::Complete);
}

#[test]
fn test_install_package_already_installed() {
    let mut repo = MockPackageRepository::new();
    repo.mock_get_package_ok("ripgrep", test_package("ripgrep", "test install", "test check", &[]));
    let mut runner = MockCommandRunner::new();
    runner.success_response("test check", "Found");

    let result = install_package(&repo, &runner, &create_test_config(), "ripgrep");

    assert!(result.is_ok());
    let install_result = result.unwrap();
    assert_eq!(install_result.package_name, "ripgrep");
    assert_eq!(install_result.status, InstallationStatus::AlreadyInstalled);
}

#[test]
fn test_install_package_with_dependencies() {
    let mut repo = MockPackageRepository::new();
    repo.mock_get_package_ok("ripgrep", test_package("ripgrep", "rg install", "rg check", &["rust"]));
    repo.mock_get_package_ok("rust", test_package("rust", "rust install", "rust check", &[]));
    let mut runner = MockCommandRunner::new();
    runner.error_response("rg check", "Not found", 1);
    runner.success_response("rg install", "Installed successfully");
    runner.error_response("rust check", "Not found", 1);
    runner.success_response("rust install", "Installed successfully");

    let result = install_package(&repo, &runner, &create_test_config(), "ripgrep");

    assert!(result.is_ok());
    let install_result = result.unwrap();
    assert_eq!(install_result.package_name, "ripgrep");
    assert_eq!(install_result.status, InstallationStatus::Complete);
    assert_eq!(install_result.dependencies.len(), 1);
    assert_eq!(install_result.dependencies[0].package_name, "rust");
    assert_eq!(install_result.dependencies[0].status, InstallationStatus::Complete);
}

#[test]
fn test_install_package_with_failing_dependency() {
    let mut repo = MockPackageRepository::new();
    repo.mock_get_package_ok("ripgrep", test_package("ripgrep", "rg install", "rg check", &["rust"]));
    repo.mock_get_package_ok("rust", test_package("rust", "rust install", "rust check", &[]));
    let mut runner = MockCommandRunner::new();
    runner.error_response("rust check", "Not found", 1);
    runner.error_response("rust install", "Installation failed", 1);

    let result = install_package(&repo, &runner, &create_test_config(), "ripgrep");

    assert!(result.is_err());
    match result {
        Err(PackageInstallerError::InstallationError(_)) => (),
        other => panic!("Expected InstallationError, got {:?}", other),
    }
}

#[test]
fn test_complex_dependency_chain() {
    let mut repo = MockPackageRepository::new();
    repo.mock_get_package_ok("main-pkg", test_package("main-pkg", "main-install", "main-check", &["dep1"]));
    repo.mock_get_package_ok("dep1", test_package("dep1", "dep1-install", "dep1-check", &["dep2"]));
    repo.mock_get_package_ok("dep2", test_package("dep2", "dep2-install", "dep2-check", &[]));
    let mut runner = MockCommandRunner::new();
    runner.error_response("main-check", "Not found", 1);
    runner.success_response("main-install", "Installed successfully");
    runner.error_response("dep1-check", "Not found", 1);
    runner.success_response("dep1-install", "Installed successfully");
    runner.error_response("dep2-check", "Not found", 1);
    runner.success_response("dep2-install", "Installed successfully");

    let result = install_package(&repo, &runner, &create_test_config(), "main-pkg");

    assert!(result.is_ok());
    let install_result = result.unwrap();
    assert_eq!(install_result.package_name, "main-pkg");
    assert_eq!(install_result.status, InstallationStatus::Complete);
    assert_eq!(install_result.dependencies.len(), 2);

    let has_dep1 = install_result.dependencies.iter().any(|d| d.package_name == "dep1");
    let has_dep2 = install_result.dependencies.iter().any(|d| d.package_name == "dep2");

    assert!(has_dep1);
    assert!(has_dep2);
}

#[test]
fn installer_progress_messages() {
    assert_eq!(installing_dependency_message("rust", false), "Installing dependency 'rust'");
    assert_eq!(installing_package_message("rg", false), "Installing package 'rg'");
    assert_eq!(installing_with_dependencies_message("rg", 2, false), Some("Installing 'rg' and 2 dependencies...".to_string()));
    assert_eq!(installing_with_dependencies_message("rg", 0, false), None);
}

#[test]
fn installer_total_is_own_plus_dependencies() {
    let main = InstallationResult::success("main", 5, None)
        .with_dependencies(vec![InstallationResult::success("a", 3, None), InstallationResult::success("b", 2, None)]);
    assert_eq!(main.total_duration(), 10);
    assert_eq!(main.dependency_duration(), 5);
    assert_eq!(main.total_duration(), main.duration + main.dependency_duration());
}

#[test]
fn installer_failed_install_is_an_error() {
    let mut runner = MockCommandRunner::new();
    runner.error_response("rust check", "Not found", 1);
    runner.error_response("rust install", "Installation failed", 1);
    let config = create_test_config();
    let manager = InstallationManager::new(&runner, &config);
    let result = manager.install_package(test_package("rust", "rust install", "rust check", &[]));
    assert!(matches!(result, Err(InstallationError::InstallationFailed(_))));
}
