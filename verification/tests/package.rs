use selfie::domain::package::{EnvironmentConfig, EnvironmentMap, Package, PackageBuilder, PackageValidationError};
use selfie::domain::validation::{ValidationErrorCategory, ValidationIssue};

#[test]
fn test_create_package_node() {
    let package = PackageBuilder::default()
        .name("test-package")
        .version("1.0.0")
        .environment("test-env", "test install")
        .build();

    assert_eq!(package.name, "test-package");
    assert_eq!(package.version, "1.0.0");
    assert_eq!(package.environments.len(), 1);
    assert_eq!(
        package.environments.get("test-env").unwrap().install,
        "test install"
    );
}

#[test]
fn test_create_package_with_metadata() {
    let package = PackageBuilder::default()
        .name("test-package")
        .version("1.0.0")
        .homepage("https://example.com")
        .description("Test package description")
        .environment("test-env", "test install")
        .build();

    assert_eq!(package.name, "test-package");
    assert_eq!(package.version, "1.0.0");
    assert_eq!(package.homepage, Some("https://example.com".to_string()));
    assert_eq!(
        package.description,
        Some("Test package description".to_string())
    );
    assert_eq!(package.environments.len(), 1);
}

#[test]
fn package_test_validate_valid_package() {
    let package = PackageBuilder::default()
        .name("test-package")
        .version("1.0.0")
        .environment("test-env", "test install")
        .build();

    assert!(package.validate("test-env").is_empty());
}

#[test]
fn test_validate_missing_fields() {
    let package = PackageBuilder::default().build();

    assert_eq!(
        package.validate("test-env"),
        vec![
            ValidationIssue {
                category: ValidationErrorCategory::RequiredField,
                field: "name".to_string(),
                message: "Package name is required".to_string(),
                line: None,
                is_warning: false,
                suggestion: Some("Add 'name: your-package-name' to the package file.".to_string())
            },
            ValidationIssue {
                category: ValidationErrorCategory::RequiredField,
                field: "version".to_string(),
                message: "Package version is required".to_string(),
                line: None,
                is_warning: false,
                suggestion: Some("Add 'version: \"0.1.0\"' to the package file.".to_string())
            },
            ValidationIssue {
                category: ValidationErrorCategory::RequiredField,
                field: "environments".to_string(),
                message: "At least one environment must be defined".to_string(),
                line: None,
                is_warning: false,
                suggestion: Some(
                    "Add an 'environments' section with at least one environment.".to_string()
                )
            }
        ]
    );
}

#[test]
fn test_validate_empty_fields() {
    let package = PackageBuilder::default()
        .name("")
        .version("1.0.0")
        .environment("test-env", "test install")
        .build();

    assert_eq!(
        package.validate("test-env"),
        vec![ValidationIssue {
            category: ValidationErrorCategory::RequiredField,
            field: "name".to_string(),
            message: "Package name is required".to_string(),
            line: None,
            is_warning: false,
            suggestion: Some("Add 'name: your-package-name' to the package file.".to_string())
        },]
    );
}

#[test]
fn package_test_validate_empty_environment() {
    let package = PackageBuilder::default()
        .name("test-package")
        .version("1.0.0")
        .environment("test-env", "")
        .build();

    assert_eq!(
        package.validate("test-env"),
        vec![ValidationIssue {
            category: ValidationErrorCategory::RequiredField,
            field: "environments.test-env.install".to_string(),
            message: "Install command is required".to_string(),
            line: None,
            is_warning: false,
            suggestion: Some("Add an install command like 'brew install package-name'.".to_string())
        },]
    );
}

#[test]
fn package_test_resolve_environment_valid() {
    let package = PackageBuilder::default()
        .name("test-package")
        .version("1.0.0")
        .environment("test-env", "test install")
        .environment("prod-env", "prod install")
        .build();

    let result = package.resolve_environment("test-env");
    assert!(result.is_ok());
    assert_eq!(result.unwrap().install, "test install");
}

#[test]
fn test_resolve_environment_case_insensitive() {
    let package = PackageBuilder::default()
        .name("test-package")
        .version("1.0.0")
        .environment("Test-Env", "test install")
        .build();

    let result = package.resolve_environment("test-env");
    assert!(result.is_err());
}

#[test]
fn package_test_resolve_environment_not_found() {
    let package = PackageBuilder::default()
        .name("test-package")
        .version("1.0.0")
        .environment("test-env", "test install")
        .build();

    let result = package.resolve_environment("prod-env");
    assert_eq!(
        result,
        Err(PackageValidationError::EnvironmentNotSupported(
            "prod-env".to_string()
        ))
    );
}

#[test]
fn test_resolve_environment_empty() {
    let package = PackageBuilder::default()
        .name("test-package")
        .version("1.0.0")
        .build();

    let result = package.resolve_environment("test-env");
    assert_eq!(
        result,
        Err(PackageValidationError::MissingField(
            "environments".to_string()
        ))
    );
}

#[test]
fn test_validate_required_fields() {
    let empty_package = Package::new(
        String::new(),
        String::new(),
        None,
        None,
        EnvironmentMap::new(),
        String::new(),
    );

    let issues = empty_package.validate_required_fields();

    assert_eq!(issues.len(), 3);
    assert!(issues.iter().any(|i| i.field == "name" && !i.is_warning));
    assert!(issues.iter().any(|i| i.field == "version" && !i.is_warning));
    assert!(issues
        .iter()
        .any(|i| i.field == "environments" && !i.is_warning));
}

#[test]
fn test_validate_urls() {
    let package = PackageBuilder::default()
        .name("test-package")
        .version("1.0.0")
        .homepage("not-a-valid-url")
        .environment("test-env", "test install")
        .build();

    let issues = package.validate_urls();
    assert_eq!(issues.len(), 1);
    assert!(issues[0].category == ValidationErrorCategory::UrlFormat);

    let package = PackageBuilder::default()
        .name("test-package")
        .version("1.0.0")
        .homepage("ftp://example.com")
        .environment("test-env", "test install")
        .build();

    let issues = package.validate_urls();
    assert_eq!(issues.len(), 1);
    assert!(issues[0].is_warning);
    assert!(issues[0].message.contains("scheme"));

    let package = PackageBuilder::default()
        .name("test-package")
        .version("1.0.0")
        .homepage("https://example.com")
        .environment("test-env", "test install")
        .build();

    let issues = package.validate_urls();
    assert_eq!(issues.len(), 0);
}

#[test]
fn test_validate_environments() {
    let package = PackageBuilder::default()
        .name("test-package")
        .version("1.0.0")
        .environment("other-env", "test install")
        .build();

    let issues = package.validate_environments("test-env");
    assert_eq!(issues.len(), 1);
    assert!(issues[0].is_warning);
    assert!(issues[0].message.contains("not configured"));

    let mut package = PackageBuilder::default()
        .name("test-package")
        .version("1.0.0")
        .build();

    let env_config = EnvironmentConfig {
        install: String::new(),
        check: None,
        dependencies: vec![],
    };

    package
        .environments
        .insert("test-env".to_string(), env_config);

    let issues = package.validate_environments("test-env");
    assert_eq!(issues.len(), 1);
    assert!(!issues[0].is_warning);
    assert!(issues[0].message.contains("required"));
}

#[test]
fn package_test_validate_command_syntax() {
    let package = PackageBuilder::default()
        .name("test-package")
        .version("1.0.0")
        .environment("test-env", "echo 'unmatched")
        .build();

    let issues = package.validate_command_syntax();
    assert_eq!(issues.len(), 1);
    assert!(!issues[0].is_warning);
    assert!(issues[0].message.contains("Unmatched single quote"));

    let package = PackageBuilder::default()
        .name("test-package")
        .version("1.0.0")
        .environment("test-env", "echo test | | grep test")
        .build();

    let issues = package.validate_command_syntax();
    assert_eq!(issues.len(), 1);
    assert!(!issues[0].is_warning);
    assert!(issues[0].message.contains("Invalid pipe usage"));

    let package = PackageBuilder::default()
        .name("test-package")
        .version("1.0.0")
        .environment("test-env", "echo `date`")
        .build();

    let issues = package.validate_command_syntax();
    assert_eq!(issues.len(), 1);
    assert!(issues[0].is_warning);
    assert!(issues[0].message.contains("backticks"));
}

#[test]
fn test_full_validate() {
    let package = PackageBuilder::default()
        .name("test-package")
        .version("1.0.0")
        .homepage("https://example.com")
        .description("A test package")
        .environment("test-env", "echo test")
        .build();

    let issues = package.validate("test-env");
    assert_eq!(issues.len(), 0);

    let package = PackageBuilder::default()
        .name("")
        .version("")
        .homepage("invalid-url")
        .environment("other-env", "echo `test`")
        .build();

    let issues = package.validate("test-env");
    assert!(issues.len() >= 4);
}

#[test]
fn package_name_rules() {
    assert!(Package::is_valid_package_name("rip-grep_2"));
    assert!(!Package::is_valid_package_name(""));
    assert!(!Package::is_valid_package_name("has space"));
    assert!(Package::is_valid_version("1.2.3"));
    assert!(Package::is_valid_version("10.20.30-beta"));
    assert!(!Package::is_valid_version("1.2"));
    assert!(!Package::is_valid_version("v1.2.3"));
}

#[test]
fn package_invalid_name_and_loose_version() {
    let package = PackageBuilder::default()
        .name("bad name")
        .version("latest")
        .environment("test-env", "echo ok")
        .build();
    let issues = package.validate_required_fields();
    assert_eq!(issues.len(), 2);
    assert_eq!(issues[0].category, ValidationErrorCategory::InvalidValue);
    assert!(!issues[0].is_warning);
    assert_eq!(issues[1].field, "version");
    assert!(issues[1].is_warning);
}

#[test]
fn package_redirect_and_dependency_checks() {
    let issues = Package::validate_single_command("cat > out.txt", "f");
    assert_eq!(issues.len(), 1);
    assert_eq!(issues[0].message, "Potential invalid redirection with >");
    assert!(Package::validate_single_command("cat > /tmp/out.txt", "f").is_empty());
    assert!(Package::validate_single_command("cat > ~/out.txt", "f").is_empty());

    let package = PackageBuilder::default()
        .name("p")
        .version("1.0.0")
        .environment_with_dependencies("test-env", "echo ok", vec!["a", ""])
        .build();
    let issues = package.validate_environments("test-env");
    assert_eq!(issues.len(), 1);
    assert_eq!(issues[0].field, "environments.test-env.dependencies[1]");
}

#[test]
fn package_validation_error_messages() {
    assert_eq!(
        PackageValidationError::EnvironmentNotSupported("linux".to_string()).to_string(),
        "Environment 'linux' not supported by package"
    );
    assert_eq!(
        PackageValidationError::MissingField("name".to_string()).to_string(),
        "Missing required field: name"
    );
}

#[test]
fn package_environment_map_replaces_in_place() {
    let mut map = EnvironmentMap::new();
    let first = EnvironmentConfig { install: "a".to_string(), check: None, dependencies: vec![] };
    let second = EnvironmentConfig { install: "b".to_string(), check: None, dependencies: vec![] };
    assert!(map.insert("x".to_string(), first).is_none());
    let old = map.insert("x".to_string(), second).unwrap();
    assert_eq!(old.install, "a");
    assert_eq!(map.len(), 1);
    assert_eq!(map.get("x").unwrap().install, "b");
    assert!(map.get("y").is_none());
}
