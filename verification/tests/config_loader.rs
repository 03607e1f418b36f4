use selfie::adapters::config_loader::{Yaml, YamlConfigLoader};
use selfie::domain::application::commands::ApplicationCommand;
use selfie::domain::config::file_config::FileConfig;
use selfie::domain::config::log_config::LogConfig;
use selfie::domain::config::AppConfig;
use selfie::filesystem::MockFileSystem;
use selfie::ports::application::ApplicationArguments;
use selfie::ports::config_loader::ConfigLoadError;

const CONFIG_DIR: &str = "/home/test/.config/selfie";

const SIMPLE_CONFIG: &str = r#"
            environment: "test-env"
            package_directory: "/test/packages"
        "#;

const EXTENDED_CONFIG: &str = r#"
            environment: "test-env"
            package_directory: "/test/packages"
            command_timeout: 120
            stop_on_error: false
            max_parallel_installations: 8
            logging:
              enabled: true
              directory: "/test/logs"
              max_files: 5
              max_size: 20
        "#;

fn setup_test_fs() -> MockFileSystem {
    let mut fs = MockFileSystem::new();
    fs.add_file("/home/test/.config/selfie/config.yaml", SIMPLE_CONFIG);
    fs
}

fn no_arguments() -> ApplicationArguments {
    ApplicationArguments {
        environment: None,
        package_directory: None,
        verbose: false,
        no_color: false,
        command: ApplicationCommand::default(),
    }
}

/// The settings of a configuration text, read field by field.
fn parse_file_config(text: &str) -> Result<FileConfig, String> {
    let v: serde_yaml::Value = serde_yaml::from_str(text).map_err(|e| e.to_string())?;
    let text_field = |name: &str| v.get(name).and_then(|x| x.as_str()).map(|s| s.to_string());
    let environment = text_field("environment").ok_or("missing field `environment`")?;
    let package_directory = text_field("package_directory").ok_or("missing field `package_directory`")?;
    let logging = v.get("logging").map(|l| LogConfig {
        enabled: l.get("enabled").and_then(|x| x.as_bool()).unwrap_or(false),
        directory: l.get("directory").and_then(|x| x.as_str()).unwrap_or("").to_string(),
        max_files: l.get("max_files").and_then(|x| x.as_u64()).unwrap_or(0) as usize,
        max_size: l.get("max_size").and_then(|x| x.as_u64()).unwrap_or(0) as usize,
    });
    Ok(FileConfig {
        environment,
        package_directory,
        command_timeout: v.get("command_timeout").and_then(|x| x.as_u64()),
        stop_on_error: v.get("stop_on_error").and_then(|x| x.as_bool()),
        max_parallel_installations: v.get("max_parallel_installations").and_then(|x| x.as_u64()).map(|m| m as usize),
        logging,
    })
}

/// Loading the application configuration: the file found, read, its settings
/// overridden by the arguments, and finished.
fn load_app_config(loader: &Yaml<'_, MockFileSystem>, args: &ApplicationArguments) -> Result<AppConfig, ConfigLoadError> {
    let path = loader.config_file()?;
    let text = loader.read(&path)?;
    let file = parse_file_config(&text).map_err(ConfigLoadError::ParseError)?;
    loader.finish(AppConfig::from_file_config(file).apply_cli_args(args))
}

/// Loading the configuration file's settings: the first file found, read and checked.
fn load_file_config(loader: &YamlConfigLoader<'_, MockFileSystem>) -> Result<FileConfig, ConfigLoadError> {
    let paths = loader.find_config_paths();
    if paths.is_empty() {
        return Err(ConfigLoadError::NotFound);
    }
    let text = loader.read_config_file(&paths[0])?;
    loader.checked(parse_file_config(&text))
}

#[test]
fn yaml_test_find_config_paths() {
    let mut fs = setup_test_fs();
    fs.mock_config_dir(CONFIG_DIR);
    fs.add_existing_path("/home/test/.config/selfie/selfie/config.yaml");

    let loader = Yaml::new(&fs);

    let paths = loader.find_config_paths();

    assert!(!paths.is_empty());
    assert!(paths.iter().any(|p| p.ends_with("config.yaml")));
}

#[test]
fn yaml_config_loader_test_find_config_paths() {
    let mut fs = setup_test_fs();
    fs.mock_config_dir(CONFIG_DIR);
    fs.add_existing_path("/home/test/.config/selfie/selfie/config.yaml");

    let loader = YamlConfigLoader::new(&fs);

    let paths = loader.find_config_paths();

    assert!(!paths.is_empty());
    assert!(paths.iter().any(|p| p.ends_with("config.yaml")));
}

#[test]
fn yaml_test_load_config() {
    let mut fs = setup_test_fs();
    fs.mock_config_dir(CONFIG_DIR);
    fs.add_existing_path("/test/packages");

    let loader = Yaml::new(&fs);
    let mut args = no_arguments();
    args.environment = Some("test-env".to_string());
    args.package_directory = Some("/test/packages".to_string());

    let config = load_app_config(&loader, &args).unwrap();

    assert_eq!(config.environment, "test-env");
    assert_eq!(config.package_directory, "/test/packages");
}

#[test]
fn yaml_config_loader_test_load_config() {
    let mut fs = setup_test_fs();
    fs.mock_config_dir(CONFIG_DIR);

    let loader = YamlConfigLoader::new(&fs);
    let config = load_file_config(&loader).unwrap();

    assert_eq!(config.environment, "test-env");
    assert_eq!(config.package_directory, "/test/packages");
}

#[test]
fn yaml_test_load_config_not_found() {
    let mut fs = MockFileSystem::new();
    fs.mock_config_dir(CONFIG_DIR);
    fs.add_existing_path(CONFIG_DIR);

    let loader = Yaml::new(&fs);

    let result = load_app_config(&loader, &no_arguments());
    assert!(matches!(result, Err(ConfigLoadError::NotFound)));
}

#[test]
fn yaml_config_loader_test_load_config_not_found() {
    let mut fs = MockFileSystem::new();
    fs.mock_config_dir(CONFIG_DIR);
    fs.add_existing_path(CONFIG_DIR);

    let loader = YamlConfigLoader::new(&fs);

    let result = load_file_config(&loader);
    assert!(matches!(result, Err(ConfigLoadError::NotFound)));
}

#[test]
fn yaml_test_load_config_with_extended_settings() {
    let mut fs = MockFileSystem::new();
    fs.mock_config_dir(CONFIG_DIR);
    fs.add_file("/home/test/.config/selfie/config.yaml", EXTENDED_CONFIG);

    let loader = Yaml::new(&fs);
    let config = load_app_config(&loader, &no_arguments()).unwrap();

    assert_eq!(config.environment, "test-env");
    assert_eq!(config.package_directory, "/test/packages");

    assert_eq!(config.command_timeout, 120);
    assert!(!config.stop_on_error);
    assert_eq!(config.max_parallel_installations, 8);

    let logging = &config.logging;
    assert!(logging.enabled);
    assert_eq!(logging.directory.as_ref().unwrap(), "/test/logs");
    assert_eq!(logging.max_files, 5);
    assert_eq!(logging.max_size, 20);
}

#[test]
fn yaml_config_loader_test_load_config_with_extended_settings() {
    let mut fs = MockFileSystem::new();
    fs.mock_config_dir(CONFIG_DIR);
    fs.add_file("/home/test/.config/selfie/config.yaml", EXTENDED_CONFIG);

    let loader = YamlConfigLoader::new(&fs);
    let config = load_file_config(&loader).unwrap();

    assert_eq!(config.environment, "test-env");
    assert_eq!(config.package_directory, "/test/packages");

    assert_eq!(config.command_timeout, Some(120));
    assert_eq!(config.stop_on_error, Some(false));
    assert_eq!(config.max_parallel_installations, Some(8));

    let logging = config.logging.as_ref().unwrap();
    assert!(logging.enabled);
    assert_eq!(logging.directory, "/test/logs");
    assert_eq!(logging.max_files, 5);
    assert_eq!(logging.max_size, 20);
}

#[test]
fn config_paths_prefer_yaml_then_yml() {
    let mut fs = MockFileSystem::new();
    fs.mock_config_dir(CONFIG_DIR);
    fs.add_file("/home/test/.config/selfie/config.yml", SIMPLE_CONFIG);
    fs.add_file("/home/test/.config/selfie/config.yaml", SIMPLE_CONFIG);

    let loader = Yaml::new(&fs);
    assert_eq!(
        loader.find_config_paths(),
        vec![
            "/home/test/.config/selfie/config.yaml".to_string(),
            "/home/test/.config/selfie/config.yml".to_string()
        ]
    );
}

#[test]
fn no_config_dir_finds_no_paths() {
    let fs = setup_test_fs();
    let loader = YamlConfigLoader::new(&fs);
    assert!(loader.find_config_paths().is_empty());
}

#[test]
fn logging_without_directory_is_refused() {
    let fs = MockFileSystem::new();
    let loader = Yaml::new(&fs);
    let mut config = AppConfig::new("env".to_string(), "/pkgs".to_string());
    config.logging.enabled = true;
    config.logging.directory = None;
    match loader.finish(config) {
        Err(ConfigLoadError::ValidationError(m)) => {
            assert_eq!(m, "Logging is enabled, but logging directory not set")
        }
        other => panic!("unexpected: {:?}", other.is_ok()),
    }
}

#[test]
fn unparsable_config_is_a_parse_error() {
    let fs = MockFileSystem::new();
    let loader = YamlConfigLoader::new(&fs);
    match loader.checked(Err("bad yaml".to_string())) {
        Err(ConfigLoadError::ParseError(m)) => assert_eq!(m, "bad yaml"),
        _ => panic!("expected a parse error"),
    }
}

#[test]
fn missing_config_file_is_a_read_error() {
    let fs = MockFileSystem::new();
    let loader = YamlConfigLoader::new(&fs);
    match loader.read_config_file("/nowhere/config.yaml") {
        Err(ConfigLoadError::ReadError(m)) => assert_eq!(m, "Can't read config file: /nowhere/config.yaml"),
        _ => panic!("expected a read error"),
    }
}
