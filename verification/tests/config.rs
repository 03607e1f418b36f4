use selfie::config::{Config, ConfigBuilder, ConfigValidationError};
use selfie::domain::package::PackageBuilder;

#[test]
fn test_create_config() {
    let config = Config::new("test-env".to_string(), "/test/path".to_string());
    assert_eq!(config.environment, "test-env");
    assert_eq!(config.package_directory, "/test/path".to_string());
}

#[test]
fn test_validate_valid_config() {
    let config = ConfigBuilder::default()
        .environment("test-env")
        .package_directory("/test/path")
        .build();

    assert!(config.validate().is_ok());
}

#[test]
fn config_test_validate_empty_environment() {
    let config = ConfigBuilder::default()
        .environment("")
        .package_directory("/test/path")
        .build();

    assert_eq!(
        config.validate(),
        Err(ConfigValidationError::EmptyField("environment".to_string()))
    );
}

#[test]
fn test_validate_empty_package_directory() {
    let config = ConfigBuilder::default()
        .environment("test-env")
        .package_directory("")
        .build();

    assert_eq!(
        config.validate(),
        Err(ConfigValidationError::EmptyField(
            "package_directory".to_string()
        ))
    );
}

#[test]
fn test_validate_relative_package_directory() {
    let config = ConfigBuilder::default()
        .environment("test-env")
        .package_directory("relative/path")
        .build();

    assert_eq!(
        config.validate(),
        Err(ConfigValidationError::InvalidPackageDirectory(
            "Package directory must be an absolute path".to_string()
        ))
    );
}

#[test]
fn config_test_resolve_environment_valid() {
    let config = ConfigBuilder::default()
        .environment("test-env")
        .package_directory("/test/path")
        .build();

    let package = PackageBuilder::default()
        .name("test-package")
        .version("1.0.0")
        .environment("test-env", "test install")
        .build();

    let result = config.resolve_environment(&package);
    assert!(result.is_ok());
    assert_eq!(result.unwrap().install, "test install");
}

#[test]
fn config_test_resolve_environment_not_found() {
    let config = ConfigBuilder::default()
        .environment("prod-env")
        .package_directory("/test/path")
        .build();

    let package = PackageBuilder::default()
        .name("test-package")
        .version("1.0.0")
        .environment("test-env", "test install")
        .build();

    let result = config.resolve_environment(&package);
    assert_eq!(
        result,
        Err(ConfigValidationError::EnvironmentNotFound(
            "prod-env".to_string()
        ))
    );
}

#[test]
fn test_resolve_environment_empty_package() {
    let config = ConfigBuilder::default()
        .environment("test-env")
        .package_directory("/test/path")
        .build();

    let package = PackageBuilder::default()
        .name("test-package")
        .version("1.0.0")
        .build();

    let result = config.resolve_environment(&package);
    assert_eq!(
        result,
        Err(ConfigValidationError::InvalidPackage(
            "Package has no environments".to_string()
        ))
    );
}

#[test]
fn config_plain_directory_is_not_expanded() {
    let config = ConfigBuilder::default()
        .environment("e")
        .package_directory("/abs/dir")
        .build();
    assert_eq!(config.expanded_package_directory(), "/abs/dir");
    let config = ConfigBuilder::default()
        .environment("e")
        .package_directory("~user/dir")
        .build();
    assert_eq!(config.expanded_package_directory(), "~user/dir");
}

#[test]
fn config_validate_given_expansion() {
    let config = ConfigBuilder::default()
        .environment("e")
        .package_directory("~/packages")
        .build();
    assert!(config.validate_expanded("/home/someone/packages").is_ok());
    assert_eq!(
        config.validate_expanded("~/packages"),
        Err(ConfigValidationError::InvalidPackageDirectory(
            "Package directory must be an absolute path".to_string()
        ))
    );
}

#[test]
fn config_error_messages() {
    assert_eq!(
        ConfigValidationError::EnvironmentNotFound("x".to_string()).to_string(),
        "Environment not found: x"
    );
    assert_eq!(
        ConfigValidationError::EmptyField("environment".to_string()).to_string(),
        "Empty field: environment"
    );
}

#[test]
fn test_expanded_package_directory() {
    let config = ConfigBuilder::default()
        .environment("test-env")
        .package_directory("~/test/path")
        .build();

    let home_dir = shellexpand::tilde("~").to_string();
    let expected_path = format!("{}/test/path", home_dir.trim_end_matches('/'));
    assert_eq!(config.expanded_package_directory(), expected_path);
}
