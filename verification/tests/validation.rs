use selfie::adapters::progress::ProgressManager;
use selfie::domain::package::PackageBuilder;
use selfie::domain::report::FileDetails;
use selfie::domain::validation::{ValidationErrorCategory, ValidationIssue, ValidationResult};
use selfie::package_validator::{format_validation_result, PackageValidator, PackageValidatorError};

fn sample_result() -> ValidationResult {
    let mut result = ValidationResult::new("test-package");
    result.add_issue(ValidationIssue::error(
        ValidationErrorCategory::RequiredField,
        "name",
        "Package name is required",
        None,
        Some("Add 'name: your-package-name' to the package file."),
    ));
    result.add_issue(ValidationIssue::warning(
        ValidationErrorCategory::CommandSyntax,
        "install",
        "Command uses deprecated syntax",
        None,
        Some("Update to the newer syntax."),
    ));
    result
}

#[test]
fn package_validator_test_format_validation_result() {
    let result = sample_result();
    let formatted = format_validation_result(&result, false, false, None);

    assert!(formatted.contains("Validation failed"));
    assert!(formatted.contains("Package name is required"));
    assert!(formatted.contains("Add 'name: your-package-name'"));
}

#[test]
fn validation_test_format_validation_result() {
    let result = sample_result();
    let progress_manager = ProgressManager::new(false, true, false);
    let formatted = result.format_validation_result(progress_manager, None);

    assert!(formatted.contains("Validation failed"));
    assert!(formatted.contains("Package name is required"));
    assert!(formatted.contains("Add 'name: your-package-name'"));
}

#[test]
fn validation_report_exact_text() {
    let result = sample_result().with_path("/p/test-package.yaml".to_string());
    assert_eq!(
        result.render_report(false, false, None),
        "✗ Validation failed for package: test-package\n\
         \nRequired field errors:\n  • name: Package name is required\n    Suggestion: Add 'name: your-package-name' to the package file.\n\
         \nYou can find the package file at: /p/test-package.yaml\n"
    );

    let mut ok = ValidationResult::new("fine");
    ok.add_issue(ValidationIssue::warning(ValidationErrorCategory::Environment, "environments", "w", None, None));
    assert_eq!(
        ok.render_report(false, false, None),
        "Package 'fine' is valid\n\nWarnings:\n  ! environments: w\n"
    );
    assert_eq!(
        format_validation_result(&ok, false, false, None),
        "✓ Package 'fine' is valid\n\nWarnings:\n  ! w\n"
    );
}

#[test]
fn validation_report_categories_in_order() {
    let mut result = ValidationResult::new("p");
    result.add_issue(ValidationIssue::error(ValidationErrorCategory::Other, "a", "m1", None, None));
    result.add_issue(ValidationIssue::error(ValidationErrorCategory::UrlFormat, "b", "m2", None, None));
    result.add_issue(ValidationIssue::error(ValidationErrorCategory::InvalidValue, "c", "m3", None, None));
    let text = result.render_report(false, false, None);
    let url = text.find("URL format errors").unwrap();
    let invalid = text.find("InvalidValue errors").unwrap();
    let other = text.find("Other errors").unwrap();
    assert!(url < invalid && invalid < other);
}

#[test]
fn validation_report_verbose_details() {
    let package = PackageBuilder::default()
        .name("rg")
        .version("1.0.0")
        .environment_with_dependencies("mac", "brew install rg", vec!["brew"])
        .build();
    let mut result = ValidationResult::new("rg").with_path("/p/rg.yaml".to_string()).with_package(package);
    result.add_issue(ValidationIssue::error(ValidationErrorCategory::Other, "x", "y", None, None));
    let details = FileDetails {
        permissions: 0o644,
        created: "C".to_string(),
        created_ago: "1h".to_string(),
        modified: "M".to_string(),
        modified_ago: "2m".to_string(),
    };
    let text = result.render_report(false, true, Some(&details));
    assert!(text.contains("\n--- Verbose Information ---\n"));
    assert!(text.contains("  Permissions: 644\n"));
    assert!(text.contains("  Created: C (1h ago)\n"));
    assert!(text.contains("  Name: rg\n"));
    assert!(text.contains("    mac:\n      Check: \n      Install: brew install rg\n      Dependencies:\n        brew\n"));
    assert!(text.ends_with("\nValidation statistics:\n  Total issues: 1\n  Errors: 1\n  Warnings: 0\n  Is valid: false\n"));
}

#[test]
fn validator_checks_parsed_package() {
    let validator = PackageValidator::new("test-env");
    let package = PackageBuilder::default()
        .name("")
        .version("")
        .environment("test-env", "brew install test-package")
        .build();
    let result = validator.validate_parsed_file("/p/incomplete.yaml", "incomplete", Ok(package));
    assert!(!result.is_valid());
    let required = result.issues_by_category(&ValidationErrorCategory::RequiredField);
    assert_eq!(required.len(), 2);
    assert!(required.iter().any(|e| e.field == "name"));
    assert!(required.iter().any(|e| e.field == "version"));

    let package = PackageBuilder::default()
        .name("test-package")
        .version("abc")
        .homepage("not-a-valid-url")
        .environment("other-env", "brew install \"oops | | x")
        .build();
    let result = validator.validate_parsed_file("/p/x.yaml", "x", Ok(package));
    assert_eq!(result.issues_by_category(&ValidationErrorCategory::UrlFormat).len(), 1);
    let env = result.issues_by_category(&ValidationErrorCategory::Environment);
    assert_eq!(env.len(), 1);
    assert!(env[0].message.contains("'test-env'"));
    let syntax = result.issues_by_category(&ValidationErrorCategory::CommandSyntax);
    assert!(syntax.iter().any(|e| e.message.contains("Unmatched double quote")));
    assert!(syntax.iter().any(|e| e.message.contains("Invalid pipe usage")));
    let invalid = result.issues_by_category(&ValidationErrorCategory::InvalidValue);
    assert_eq!(invalid.len(), 1);
    assert!(invalid[0].is_warning);

    let failed = validator.validate_parsed_file("/p/bad.yaml", "bad", Err("YAML parsing error: x".to_string()));
    assert_eq!(failed.package_name, "bad");
    assert_eq!(failed.issues[0].message, "Failed to parse package file: YAML parsing error: x");
}

#[test]
fn validator_selects_single_file() {
    assert!(matches!(
        PackageValidator::select_package_file("nonexistent", vec![]),
        Err(PackageValidatorError::PackageNotFound(_))
    ));
    assert!(matches!(
        PackageValidator::select_package_file("duplicate", vec!["a.yaml".to_string(), "a.yml".to_string()]),
        Err(PackageValidatorError::MultiplePackagesFound(_))
    ));
    assert_eq!(
        PackageValidator::select_package_file("one", vec!["one.yaml".to_string()]).unwrap(),
        "one.yaml"
    );
}

#[test]
fn validation_issues_partition() {
    let result = sample_result();
    assert_eq!(result.errors().len() + result.warnings().len(), result.issues.len());
    assert_eq!(result.has_errors(), !result.errors().is_empty());
    let categories = [
        ValidationErrorCategory::RequiredField,
        ValidationErrorCategory::InvalidValue,
        ValidationErrorCategory::Environment,
        ValidationErrorCategory::CommandSyntax,
        ValidationErrorCategory::UrlFormat,
        ValidationErrorCategory::FileSystem,
        ValidationErrorCategory::Availability,
        ValidationErrorCategory::Other,
    ];
    let total: usize = categories.iter().map(|c| result.issues_by_category(c).len()).sum();
    assert_eq!(total, result.issues.len());
}
