use std::time::Duration;

use selfie::domain::application::commands::{ApplicationCommand, PackageCommand};
use selfie::domain::config::file_config::{FileConfig, FileConfigBuilder};
use selfie::domain::config::log_config::LogConfig;
use selfie::domain::config::{AppConfig, AppConfigBuilder, ConfigValidationError};
use selfie::ports::application::ApplicationArguments;

#[test]
fn config_test_app_config_builder() {
    let config = AppConfigBuilder::default()
        .environment("test-env")
        .package_directory("/test/path")
        .verbose(true)
        .use_colors(false)
        .command_timeout_unchecked(120)
        .max_parallel_unchecked(8)
        .build();

    assert_eq!(config.environment, "test-env");
    assert_eq!(config.package_directory, "/test/path".to_string());
    assert!(config.verbose);
    assert!(!config.use_colors);
    assert_eq!(config.command_timeout(), Duration::from_secs(120).as_nanos());
    assert_eq!(config.max_parallel_installations, 8);
}

#[test]
fn config_test_app_config_apply_cli_args() {
    let config = AppConfigBuilder::default()
        .environment("file-env")
        .package_directory("/file/path")
        .build();

    let args = ApplicationArguments {
        environment: Some("cli-env".to_string()),
        package_directory: Some("/cli/path".to_string()),
        verbose: true,
        no_color: true,
        command: ApplicationCommand::Package(PackageCommand::List),
    };
    let updated = config.apply_cli_args(&args);

    assert_eq!(updated.environment, "cli-env");
    assert_eq!(updated.package_directory, "/cli/path".to_string());
    assert!(updated.verbose);
    assert!(!updated.use_colors);
}

#[test]
fn config_test_app_config_validation() {
    let valid_config = AppConfigBuilder::default()
        .environment("test-env")
        .package_directory("/test/path")
        .build();

    assert!(valid_config.validate().is_ok());

    let invalid_config = AppConfigBuilder::default()
        .environment("")
        .package_directory("/test/path")
        .build();

    assert!(matches!(
        invalid_config.validate(),
        Err(ConfigValidationError::EmptyField(field)) if field == "environment"
    ));
}

#[test]
fn app_config_test_app_config_builder() {
    let config = AppConfigBuilder::default()
        .environment("test-env")
        .package_directory("/test/path")
        .verbose(true)
        .use_colors(false)
        .command_timeout(120)
        .max_parallel(8)
        .build();

    assert_eq!(config.environment, "test-env");
    assert_eq!(config.package_directory, "/test/path".to_string());
    assert!(config.verbose);
    assert!(!config.use_colors);
    assert_eq!(config.command_timeout(), Duration::from_secs(120).as_nanos());
    assert_eq!(config.max_parallel(), 8);
}

#[test]
fn test_app_config_from_file_config() {
    let file_config = FileConfigBuilder::default()
        .environment("test-env")
        .package_directory("/test/path")
        .command_timeout(120)
        .max_parallel(8)
        .stop_on_error(false)
        .build();

    let app_config = AppConfig::from_file_config(file_config);

    assert_eq!(app_config.environment, "test-env");
    assert_eq!(app_config.package_directory, "/test/path".to_string());
    assert!(!app_config.verbose);
    assert!(app_config.use_colors);
    assert_eq!(app_config.command_timeout(), Duration::from_secs(120).as_nanos());
    assert_eq!(app_config.max_parallel(), 8);
    assert!(!app_config.stop_on_error);
}

#[test]
fn app_config_test_app_config_apply_cli_args() {
    let config = AppConfigBuilder::default()
        .environment("file-env")
        .package_directory("/file/path")
        .build();

    let updated = config.apply_cli_overrides(
        Some("cli-env".to_string()),
        Some("/cli/path".to_string()),
        true,
        true,
    );

    assert_eq!(updated.environment, "cli-env");
    assert_eq!(updated.package_directory, "/cli/path".to_string());
    assert!(updated.verbose);
    assert!(!updated.use_colors);
}

#[test]
fn app_config_test_app_config_validation() {
    let valid_config = AppConfigBuilder::default()
        .environment("test-env")
        .package_directory("/test/path")
        .build();

    assert!(valid_config.validate().is_ok());

    let invalid_config = AppConfigBuilder::default()
        .environment("")
        .package_directory("/test/path")
        .build();

    assert!(matches!(
        invalid_config.validate(),
        Err(ConfigValidationError::EmptyField(field)) if field == "environment"
    ));

    let invalid_config = AppConfigBuilder::default()
        .environment("test-env")
        .package_directory("/test/path")
        .command_timeout(0)
        .build();

    assert!(matches!(
        invalid_config.validate(),
        Err(ConfigValidationError::InvalidCommandTimeout(_))
    ));

    let invalid_config = AppConfigBuilder::default()
        .environment("test-env")
        .package_directory("/test/path")
        .max_parallel(0)
        .build();

    assert!(matches!(
        invalid_config.validate(),
        Err(ConfigValidationError::InvalidMaxParallel(_))
    ));

    let invalid_config = AppConfigBuilder::default()
        .environment("test-env")
        .package_directory("/test/path")
        .logging_enabled(true)
        .log_max_files(0)
        .build();

    assert!(matches!(
        invalid_config.validate(),
        Err(ConfigValidationError::InvalidLogConfig(_))
    ));
}

#[test]
fn app_config_defaults_and_logging_checks() {
    let config = AppConfig::new("e".to_string(), "/p".to_string());
    assert!(!config.verbose());
    assert!(config.use_colors());
    assert!(config.use_unicode());
    assert!(config.stop_on_error());
    assert_eq!(config.command_timeout(), Duration::from_secs(60).as_nanos());
    assert!(config.max_parallel() >= 1);
    assert!(!config.logging_enabled());
    assert_eq!(config.log_max_files(), 10);
    assert_eq!(config.log_max_size(), 10);

    let config = AppConfigBuilder::default()
        .environment("e")
        .package_directory("/p")
        .logging_enabled(true)
        .log_directory("/var/log/selfie")
        .log_max_size(0)
        .build();
    assert_eq!(
        config.validate(),
        Err(ConfigValidationError::InvalidLogConfig("Max log size must be greater than 0".to_string()))
    );
    let config = AppConfigBuilder::default()
        .environment("e")
        .package_directory("/p")
        .logging_enabled(true)
        .build();
    assert_eq!(
        config.validate(),
        Err(ConfigValidationError::InvalidLogConfig(
            "Log directory must be specified when logging is enabled".to_string()
        ))
    );
    assert_eq!(
        ConfigValidationError::InvalidMaxParallel("m".to_string()).to_string(),
        "Invalid max parallel setting: m"
    );
}

#[test]
fn app_config_minimal_validation() {
    let config = AppConfigBuilder::default().environment("").package_directory("relative").build();
    assert_eq!(
        config.validate_minimal(),
        Err(ConfigValidationError::InvalidPackageDirectory(
            "Package directory must be an absolute path".to_string()
        ))
    );
    let config = AppConfigBuilder::default().environment("").package_directory("/abs").build();
    assert!(config.validate_minimal().is_ok());
}

#[test]
fn file_config_full_validation() {
    let ok = FileConfig::new("env".to_string(), "/pkgs".to_string());
    assert!(ok.validate().is_ok());
    let no_env = FileConfig::new(String::new(), "/pkgs".to_string());
    assert!(matches!(no_env.validate(), Err(ConfigValidationError::EmptyField(f)) if f == "environment"));
    let relative = FileConfig::new("env".to_string(), "pkgs".to_string());
    assert!(matches!(relative.validate(), Err(ConfigValidationError::InvalidPackageDirectory(_))));
    let mut zero = FileConfig::new("env".to_string(), "/pkgs".to_string());
    zero.command_timeout = Some(0);
    assert!(matches!(zero.validate(), Err(ConfigValidationError::InvalidCommandTimeout(_))));
    let mut logs = FileConfig::new("env".to_string(), "/pkgs".to_string());
    logs.logging = Some(LogConfig { enabled: true, directory: String::new(), max_files: 5, max_size: 10 });
    assert!(matches!(logs.validate(), Err(ConfigValidationError::InvalidLogConfig(m)) if m == "Log directory must be specified when logging is enabled"));
}
