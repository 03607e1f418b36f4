use selfie::domain::errors::{
    EnhancedCommandError, EnhancedDependencyError, EnhancedFileSystemError, EnhancedPackageError,
    ErrorContext, WithContext,
};

#[test]
fn test_error_context() {
    let context = ErrorContext::default()
        .with_path("/test/path")
        .with_command("test command")
        .with_environment("test-env")
        .with_package("test-package")
        .with_line(42)
        .with_message("Additional info");

    let context_str = context.to_string();

    assert!(context_str.contains("/test/path"));
    assert!(context_str.contains("test command"));
    assert!(context_str.contains("test-env"));
    assert!(context_str.contains("test-package"));
    assert!(context_str.contains("42"));
    assert!(context_str.contains("Additional info"));
}

#[test]
fn test_enhanced_file_system_error() {
    let error = EnhancedFileSystemError::path_not_found("/test/path");
    assert!(error.to_string().contains("Path not found"));

    let context = ErrorContext::default().with_package("test-package");
    let error = error.with_context(context);

    match &error {
        EnhancedFileSystemError::PathNotFound { context, .. } => {
            assert_eq!(context.package, Some("test-package".to_string()));
        }
        _ => panic!("Expected PathNotFound variant"),
    }
}

#[test]
fn test_enhanced_package_error() {
    let error = EnhancedPackageError::package_not_found("test-package");
    assert!(error.to_string().contains("Package not found"));

    let context = ErrorContext::default().with_environment("test-env");
    let error = error.with_context(context);

    match &error {
        EnhancedPackageError::PackageNotFound { context, .. } => {
            assert_eq!(context.environment, Some("test-env".to_string()));
        }
        _ => panic!("Expected PackageNotFound variant"),
    }
}

#[test]
fn test_enhanced_command_error() {
    let error = EnhancedCommandError::execution_failed("test command", 1, "stdout", "stderr");
    assert!(error.to_string().contains("Command execution failed"));

    let context = ErrorContext::default().with_environment("test-env");
    let error = error.with_context(context);

    match &error {
        EnhancedCommandError::ExecutionFailed { context, .. } => {
            assert_eq!(context.environment, Some("test-env".to_string()));
        }
        _ => panic!("Expected ExecutionFailed variant"),
    }
}

#[test]
fn test_enhanced_dependency_error() {
    let path = vec![
        "package-a".to_string(),
        "package-b".to_string(),
        "package-a".to_string(),
    ];
    let error = EnhancedDependencyError::circular_dependency(path.clone());
    assert!(error.to_string().contains("Circular dependency detected"));

    let context = ErrorContext::default().with_environment("test-env");
    let error = error.with_context(context);

    match &error {
        EnhancedDependencyError::CircularDependency {
            context,
            path: error_path,
            ..
        } => {
            assert_eq!(context.environment, Some("test-env".to_string()));
            assert_eq!(error_path, &path);
        }
        _ => panic!("Expected CircularDependency variant"),
    }
}

#[test]
fn test_with_context_trait() {
    let mock_result: Result<(), EnhancedFileSystemError> =
        Err(EnhancedFileSystemError::path_not_found("/test/path"));

    let result = mock_result.with_context(|| ErrorContext::default().with_package("test-package"));

    match result {
        Err(EnhancedFileSystemError::PathNotFound { context, .. }) => {
            assert_eq!(context.package, Some("test-package".to_string()));
        }
        _ => panic!("Expected PathNotFound variant"),
    }
}

#[test]
fn errors_context_text_and_messages() {
    let context = ErrorContext::default()
        .with_path("/p")
        .with_line(7)
        .with_message("m");
    assert_eq!(context.to_string(), "Path: /p, Line: 7, m");
    assert_eq!(ErrorContext::default().to_string(), "");

    let error = EnhancedDependencyError::circular_dependency(vec!["a".to_string(), "b".to_string(), "a".to_string()]);
    assert_eq!(error.to_string(), "Circular dependency detected: a → b → a");
    assert_eq!(error.cycle_path().unwrap().len(), 3);
    assert!(EnhancedDependencyError::missing_dependency("x").cycle_path().is_none());

    assert_eq!(
        EnhancedCommandError::timeout("sleep 9", 30).to_string(),
        "Command timed out after 30 seconds: sleep 9"
    );
    assert_eq!(
        EnhancedPackageError::environment_not_supported("linux", "rg").to_string(),
        "Environment not supported: linux for package rg"
    );
    assert_eq!(
        EnhancedDependencyError::environment_mismatch("dep", "pkg", "env").to_string(),
        "Dependency environment mismatch: dep for pkg"
    );
    let ok: Result<u8, EnhancedPackageError> = Ok(3);
    assert!(matches!(ok.with_context(|| ErrorContext::default()), Ok(3)));
}
