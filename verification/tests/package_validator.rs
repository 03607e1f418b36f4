use selfie::domain::package::{EnvironmentConfig, EnvironmentMap, Package};
use selfie::domain::validation::{ValidationErrorCategory, ValidationResult};
use selfie::filesystem::{FileSystem, MockFileSystem};
use selfie::package_repo::PackageRepository;
use selfie::package_validator::{PackageValidator, PackageValidatorError};

const PACKAGE_DIR: &str = "/test/packages";

fn setup_test_environment() -> (MockFileSystem, PackageValidator) {
    let mut fs = MockFileSystem::new();
    fs.add_existing_path(PACKAGE_DIR);
    (fs, PackageValidator::new("test-env"))
}

fn create_valid_package_yaml() -> String {
    r#"
name: test-package
version: 1.0.0
homepage: https://example.com
description: A test package
environments:
  test-env:
    install: brew install test-package
    check: which test-package
  prod-env:
    install: apt-get install test-package
    dependencies:
      - dependency1
      - dependency2
"#
    .to_string()
}

/// The package a package file's text describes, read field by field.
fn package_from_yaml(path: &str, text: &str) -> Result<Package, String> {
    let v: serde_yaml::Value = serde_yaml::from_str(text).map_err(|e| e.to_string())?;
    let text_of = |x: &serde_yaml::Value| match x {
        serde_yaml::Value::String(s) => Some(s.clone()),
        serde_yaml::Value::Number(n) => Some(n.to_string()),
        _ => None,
    };
    let field = |name: &str| v.get(name).and_then(|x| text_of(x));
    let mut environments = EnvironmentMap::new();
    if let Some(serde_yaml::Value::Mapping(m)) = v.get("environments") {
        for (k, e) in m {
            let name = text_of(k).ok_or("bad environment name")?;
            let install = e.get("install").and_then(|x| text_of(x)).ok_or("missing field `install`")?;
            let check = e.get("check").and_then(|x| text_of(x));
            let dependencies = match e.get("dependencies") {
                Some(serde_yaml::Value::Sequence(s)) => s.iter().filter_map(|d| text_of(d)).collect(),
                _ => Vec::new(),
            };
            environments.insert(name, EnvironmentConfig { install, check, dependencies });
        }
    }
    Ok(Package {
        name: field("name").ok_or("missing field `name`")?,
        version: field("version").ok_or("missing field `version`")?,
        homepage: field("homepage"),
        description: field("description"),
        environments,
        path: path.to_string(),
    })
}

/// Validate the package file at the path: read, parsed, checked.
fn validate_package_file(
    fs: &MockFileSystem,
    validator: &PackageValidator,
    path: &str,
) -> Result<ValidationResult, PackageValidatorError> {
    let text = fs.read_file(path).map_err(|e| PackageValidatorError::FileSystemError(e.to_string()))?;
    Ok(validator.validate_file(path, package_from_yaml(path, &text)))
}

/// Validate the package with the name: its one file found, then validated.
fn validate_package(
    fs: &MockFileSystem,
    validator: &PackageValidator,
    name: &str,
) -> Result<ValidationResult, PackageValidatorError> {
    let repository = PackageRepository::new(fs, PACKAGE_DIR);
    let files = repository
        .find_package_files(name)
        .map_err(|e| PackageValidatorError::RepoError(e.to_string()))?;
    let path = PackageValidator::select_package_file(name, files)?;
    validate_package_file(fs, validator, &path)
}

#[test]
fn package_validator_test_validate_valid_package() {
    let (mut fs, validator) = setup_test_environment();

    let yaml = create_valid_package_yaml();
    fs.add_file("/test/packages/test-package.yaml", &yaml);

    let result = validate_package(&fs, &validator, "test-package").unwrap();

    assert!(result.is_valid());
    assert_eq!(result.issues.len(), 0);
}

#[test]
fn test_validate_missing_required_fields() {
    let (mut fs, validator) = setup_test_environment();

    let yaml = r#"
name: ""
version: ""
environments:
  test-env:
    install: brew install test-package
"#;
    fs.add_file("/test/packages/incomplete.yaml", yaml);

    let result = validate_package_file(&fs, &validator, "/test/packages/incomplete.yaml").unwrap();

    assert!(!result.is_valid());

    let required_field_errors = result.issues_by_category(&ValidationErrorCategory::RequiredField);
    assert_eq!(required_field_errors.len(), 2);

    let name_error = required_field_errors.iter().find(|e| e.field == "name");
    assert!(name_error.is_some());

    let version_error = required_field_errors.iter().find(|e| e.field == "version");
    assert!(version_error.is_some());
}

#[test]
fn test_validate_invalid_url() {
    let (mut fs, validator) = setup_test_environment();

    let yaml = r#"
name: test-package
version: 1.0.0
homepage: not-a-valid-url
environments:
  test-env:
    install: brew install test-package
"#;
    fs.add_file("/test/packages/invalid-url.yaml", yaml);

    let result = validate_package_file(&fs, &validator, "/test/packages/invalid-url.yaml").unwrap();

    let url_errors = result.issues_by_category(&ValidationErrorCategory::UrlFormat);
    assert_eq!(url_errors.len(), 1);
    assert_eq!(url_errors[0].field, "homepage");
}

#[test]
fn package_validator_test_validate_command_syntax() {
    let (mut fs, validator) = setup_test_environment();

    let yaml = r#"
name: test-package
version: 1.0.0
environments:
  test-env:
    install: brew install test-package "with unmatched quote
    check: echo "hello | | invalid pipes"
"#;
    fs.add_file("/test/packages/bad-commands.yaml", yaml);

    let result = validate_package_file(&fs, &validator, "/test/packages/bad-commands.yaml").unwrap();

    let cmd_errors = result.issues_by_category(&ValidationErrorCategory::CommandSyntax);
    assert!(cmd_errors.len() >= 2);

    assert!(cmd_errors.iter().any(|e| e.message.contains("Unmatched double quote")));
    assert!(cmd_errors.iter().any(|e| e.message.contains("Invalid pipe usage")));
}

#[test]
fn test_validate_version_format() {
    let (mut fs, validator) = setup_test_environment();

    let yaml = r#"
name: test-package
version: abc
environments:
  test-env:
    install: brew install test-package
"#;
    fs.add_file("/test/packages/bad-version.yaml", yaml);

    let result = validate_package_file(&fs, &validator, "/test/packages/bad-version.yaml").unwrap();

    let version_issues = result.issues_by_category(&ValidationErrorCategory::InvalidValue);
    assert_eq!(version_issues.len(), 1);
    assert!(version_issues[0].is_warning);
    assert_eq!(version_issues[0].field, "version");
}

#[test]
fn test_validate_missing_environment() {
    let (mut fs, validator) = setup_test_environment();

    let yaml = r#"
name: test-package
version: 1.0.0
environments:
  other-env:  # Not the current environment (test-env)
    install: brew install test-package
"#;
    fs.add_file("/test/packages/missing-env.yaml", yaml);

    let result = validate_package_file(&fs, &validator, "/test/packages/missing-env.yaml").unwrap();

    let env_issues = result.issues_by_category(&ValidationErrorCategory::Environment);
    assert_eq!(env_issues.len(), 1);
    assert!(env_issues[0].is_warning);
    assert!(env_issues[0].message.contains("'test-env'"));
}

#[test]
fn test_package_not_found() {
    let (fs, validator) = setup_test_environment();

    let result = validate_package(&fs, &validator, "nonexistent");

    assert!(matches!(result, Err(PackageValidatorError::PackageNotFound(_))));
}

#[test]
fn test_multiple_packages_found() {
    let (mut fs, validator) = setup_test_environment();

    let yaml = create_valid_package_yaml();
    fs.add_file("/test/packages/duplicate.yaml", &yaml);
    fs.add_file("/test/packages/duplicate.yml", &yaml);

    let result = validate_package(&fs, &validator, "duplicate");

    assert!(matches!(result, Err(PackageValidatorError::MultiplePackagesFound(_))));
}

#[test]
fn unparsable_file_is_named_after_the_file() {
    let (_, validator) = setup_test_environment();
    let result = validator.validate_file("/test/packages/broken.tar.yaml", Err("bad".to_string()));
    assert_eq!(result.package_name, "broken.tar");
    assert_eq!(selfie::package_repo::file_stem_of("/a/.hidden"), ".hidden");
    assert_eq!(selfie::package_repo::file_stem_of("plain"), "plain");
}
