//! Detailed validation of package files: the checks the validator makes on a
//! parsed package, the result it builds for a package file, and the report it
//! writes for the user.

use vstd::prelude::*;

use crate::package_repo::{file_stem, file_stem_of};
use crate::bindings::{parse_url_scheme, semver_pattern_matches, url_parse_outcome};
use crate::domain::package::{
    check_field, command_issues, dependency_issues, install_field, map_has_key,
    missing_environment_issue, push_issue, strings_view, valid_package_name, EnvEntries,
    EnvView, EnvironmentConfig, Package,
};
use crate::domain::report::{render_validator_report, validator_report, FileDetails};
use crate::domain::validation::{
    error_issue, issues_view, warning_issue, IssueView, ValidationErrorCategory, ValidationIssue,
    ValidationResult,
};
use crate::text::{concat2, concat3, str_eq};

verus! {

/// Errors of the package validator.
#[derive(Debug)]
pub enum PackageValidatorError {
    PackageNotFound(String),
    MultiplePackagesFound(String),
    InvalidPackage(String),
    RepoError(String),
    FileSystemError(String),
    ParseError(String),
}

/// The message of a validator error.
pub open spec fn validator_error_text(e: PackageValidatorError) -> Seq<char> {
    match e {
        PackageValidatorError::PackageNotFound(n) => "Package not found: "@ + n@,
        PackageValidatorError::MultiplePackagesFound(n) => "Multiple packages found with name: "@ + n@,
        PackageValidatorError::InvalidPackage(m) => "Invalid package: "@ + m@,
        PackageValidatorError::RepoError(m) => "Package repository error: "@ + m@,
        PackageValidatorError::FileSystemError(m) => "File system error: "@ + m@,
        PackageValidatorError::ParseError(m) => "Package parse error: "@ + m@,
    }
}

impl PackageValidatorError {
    /// The error's message.
    pub fn to_string(&self) -> (r: String)
        ensures
            r@ == validator_error_text(*self),
    {
        match self {
            PackageValidatorError::PackageNotFound(n) => concat2("Package not found: ", n.as_str()),
            PackageValidatorError::MultiplePackagesFound(n) => concat2("Multiple packages found with name: ", n.as_str()),
            PackageValidatorError::InvalidPackage(m) => concat2("Invalid package: ", m.as_str()),
            PackageValidatorError::RepoError(m) => concat2("Package repository error: ", m.as_str()),
            PackageValidatorError::FileSystemError(m) => concat2("File system error: ", m.as_str()),
            PackageValidatorError::ParseError(m) => concat2("Package parse error: ", m.as_str()),
        }
    }
}

/// The issues about the name, version and presence of environments.
pub open spec fn validator_required_issues(
    name: Seq<char>,
    name_ok: bool,
    version: Seq<char>,
    version_ok: bool,
    has_environments: bool,
) -> Seq<IssueView> {
    let n = if name.len() == 0 {
        seq![error_issue(ValidationErrorCategory::RequiredField, "name"@, "Package name is required"@, "Add 'name: your-package-name' to the package file."@)]
    } else if !name_ok {
        seq![error_issue(ValidationErrorCategory::InvalidValue, "name"@, "Package name contains invalid characters"@, "Use only alphanumeric characters, hyphens, and underscores."@)]
    } else {
        Seq::<IssueView>::empty()
    };
    let v = if version.len() == 0 {
        seq![error_issue(ValidationErrorCategory::RequiredField, "version"@, "Package version is required"@, "Add 'version: 0.1.0' to the package file."@)]
    } else if !version_ok {
        seq![warning_issue(ValidationErrorCategory::InvalidValue, "version"@, "Package version should follow semantic versioning"@, "Consider using a semantic version like '1.0.0'."@)]
    } else {
        Seq::<IssueView>::empty()
    };
    let e = if !has_environments {
        seq![error_issue(ValidationErrorCategory::RequiredField, "environments"@, "At least one environment must be defined"@, "Add an 'environments' section with at least one environment."@)]
    } else {
        Seq::<IssueView>::empty()
    };
    n + v + e
}

/// The issues about a URL field, given what parsing the URL gave: its scheme,
/// or the text of the parse error.
pub open spec fn url_field_issues(outcome: Result<Seq<char>, Seq<char>>, field: Seq<char>) -> Seq<IssueView> {
    match outcome {
        Ok(scheme) => if scheme != "http"@ && scheme != "https"@ {
            seq![warning_issue(ValidationErrorCategory::UrlFormat, field, "URL should use http or https scheme, found: "@ + scheme, "Use https:// prefix for the URL."@)]
        } else {
            Seq::<IssueView>::empty()
        },
        Err(e) => seq![error_issue(ValidationErrorCategory::UrlFormat, field, "Invalid URL format: "@ + e, "Provide a valid URL with http:// or https:// prefix."@)],
    }
}

/// The issues of one environment: its install command (required, then its
/// syntax), its check command's syntax, and its dependency names.
pub open spec fn environment_config_issues(env: Seq<char>, cfg: EnvView) -> Seq<IssueView> {
    (if cfg.install.len() == 0 {
        seq![error_issue(ValidationErrorCategory::RequiredField, install_field(env), "Install command is required"@, "Add an install command like 'brew install package-name'."@)]
    } else {
        command_issues(cfg.install, install_field(env))
    }) + match cfg.check {
        Some(c) => command_issues(c, check_field(env)),
        None => Seq::<IssueView>::empty(),
    } + dependency_issues(env, cfg.dependencies)
}

/// The issues of each environment, in order.
pub open spec fn environments_config_issues(m: EnvEntries) -> Seq<IssueView>
    decreases m.len(),
{
    if m.len() == 0 {
        Seq::empty()
    } else {
        environments_config_issues(m.drop_last()) + environment_config_issues(m.last().0, m.last().1)
    }
}

/// The issues about the environments section, for the current environment.
pub open spec fn validator_environment_issues(m: EnvEntries, current: Seq<char>) -> Seq<IssueView> {
    if m.len() == 0 {
        Seq::empty()
    } else {
        (if current.len() > 0 && !map_has_key(m, current) {
            seq![missing_environment_issue(current)]
        } else {
            Seq::<IssueView>::empty()
        }) + environments_config_issues(m)
    }
}

/// All issues the validator finds in a parsed package.
pub open spec fn package_field_issues(p: Package, current: Seq<char>) -> Seq<IssueView> {
    validator_required_issues(
        p.name@,
        valid_package_name(p.name@),
        p.version@,
        semver_pattern_matches(p.version@),
        p.environments@.len() > 0,
    ) + match p.homepage {
        Some(h) => url_field_issues(url_parse_outcome(h@), "homepage"@),
        None => Seq::<IssueView>::empty(),
    } + validator_environment_issues(p.environments@, current)
}

/// The error issue recorded when a package file cannot be parsed.
pub open spec fn parse_failure_issue(message: Seq<char>) -> IssueView {
    error_issue(ValidationErrorCategory::Other, "package"@, "Failed to parse package file: "@ + message, "Check the YAML format and fix the syntax errors."@)
}

/// Add the issues to a result's issues, keeping everything else.
fn add_all(result: &mut ValidationResult, issues: Vec<ValidationIssue>)
    ensures
        issues_view(final(result).issues@) == issues_view(old(result).issues@) + issues_view(issues@),
        final(result).package_name == old(result).package_name,
        final(result).package_path == old(result).package_path,
        final(result).package == old(result).package,
{
    let ghost a = result.issues@;
    let ghost b = issues@;
    result.add_issues(issues);
    assert(issues_view(a + b) =~= issues_view(a) + issues_view(b));
}

/// Validates packages: the checks made on a parsed package, for the current environment.
pub struct PackageValidator {
    environment: String,
}

impl PackageValidator {
    /// A validator for the given current environment.
    pub fn new(environment: &str) -> (r: Self)
        ensures
            r.environment()@ == environment@,
    {
        PackageValidator { environment: String::from_str(environment) }
    }

    /// The current environment.
    pub closed spec fn environment(&self) -> String {
        self.environment
    }

    /// The package file to validate among those found for a name: the only
    /// one; none or several is an error.
    pub fn select_package_file(package_name: &str, files: Vec<String>) -> (r: Result<String, PackageValidatorError>)
        ensures
            files@.len() == 0 ==> (r matches Err(PackageValidatorError::PackageNotFound(n)) && n@ == package_name@),
            files@.len() > 1 ==> (r matches Err(PackageValidatorError::MultiplePackagesFound(n)) && n@ == package_name@),
            files@.len() == 1 ==> r == Ok::<String, PackageValidatorError>(files@[0]),
    {
        if files.len() == 0 {
            return Err(PackageValidatorError::PackageNotFound(String::from_str(package_name)));
        }
        if files.len() > 1 {
            return Err(PackageValidatorError::MultiplePackagesFound(String::from_str(package_name)));
        }
        let mut files = files;
        Ok(files.remove(0))
    }

    /// The result for a package file, given what parsing it gave: the package,
    /// or the parse error's message. A parsed package is checked in detail and
    /// kept in the result; otherwise the result records the parse failure under
    /// the name taken from the file (`fallback_name`).
    pub fn validate_parsed_file(&self, package_path: &str, fallback_name: &str, parsed: Result<Package, String>) -> (r: ValidationResult)
        ensures
            r.package_path matches Some(p) && p@ == package_path@,
            match parsed {
                Ok(p) => r.package_name@ == p.name@ && r.package == Some(p)
                    && issues_view(r.issues@) == package_field_issues(p, self.environment()@),
                Err(m) => r.package_name@ == fallback_name@ && r.package is None
                    && issues_view(r.issues@) == seq![parse_failure_issue(m@)],
            },
    {
        match parsed {
            Ok(pkg) => {
                let mut result = ValidationResult::new(pkg.name.as_str()).with_path(String::from_str(package_path));
                assert(issues_view(result.issues@) =~= Seq::<IssueView>::empty());
                self.validate_package_fields(&pkg, &mut result);
                let ghost iv = issues_view(result.issues@);
                let result = result.with_package(pkg);
                assert(issues_view(result.issues@) == iv);
                result
            },
            Err(message) => {
                let mut result = ValidationResult::new(fallback_name).with_path(String::from_str(package_path));
                let msg = concat2("Failed to parse package file: ", message.as_str());
                result.add_issue(ValidationIssue::error(
                    ValidationErrorCategory::Other,
                    "package",
                    msg.as_str(),
                    None,
                    Some("Check the YAML format and fix the syntax errors."),
                ));
                assert(issues_view(result.issues@) =~= seq![parse_failure_issue(message@)]);
                result
            },
        }
    }

    /// The result for the package file at the path, given what parsing it
    /// gave; a file that does not parse is named after the file, without its
    /// extension.
    pub fn validate_file(&self, package_path: &str, parsed: Result<Package, String>) -> (r: ValidationResult)
        ensures
            r.package_path matches Some(p) && p@ == package_path@,
            match parsed {
                Ok(p) => r.package_name@ == p.name@ && r.package == Some(p)
                    && issues_view(r.issues@) == package_field_issues(p, self.environment()@),
                Err(m) => r.package_name@ == file_stem(package_path@) && r.package is None
                    && issues_view(r.issues@) == seq![parse_failure_issue(m@)],
            },
    {
        let stem = file_stem_of(package_path);
        self.validate_parsed_file(package_path, stem.as_str(), parsed)
    }

    /// Check a package's fields in detail, adding the issues found to `result`.
    pub fn validate_package_fields(&self, package: &Package, result: &mut ValidationResult)
        ensures
            issues_view(final(result).issues@) == issues_view(old(result).issues@) + package_field_issues(*package, self.environment()@),
            final(result).package_name == old(result).package_name,
            final(result).package_path == old(result).package_path,
            final(result).package == old(result).package,
    {
        let ghost start = issues_view(result.issues@);
        Self::validate_required_fields(package, result);
        let ghost a = issues_view(result.issues@);
        match &package.homepage {
            Some(h) => Self::validate_url(h.as_str(), "homepage", result),
            None => {},
        }
        let ghost b = issues_view(result.issues@);
        self.validate_environments(package, result);
        assert(issues_view(result.issues@) =~= start + package_field_issues(*package, self.environment()@));
    }

    /// Check the name, version and presence of environments.
    fn validate_required_fields(package: &Package, result: &mut ValidationResult)
        ensures
            issues_view(final(result).issues@) == issues_view(old(result).issues@) + validator_required_issues(
                package.name@,
                valid_package_name(package.name@),
                package.version@,
                semver_pattern_matches(package.version@),
                package.environments@.len() > 0,
            ),
            final(result).package_name == old(result).package_name,
            final(result).package_path == old(result).package_path,
            final(result).package == old(result).package,
    {
        let mut issues: Vec<ValidationIssue> = Vec::new();
        if package.name.as_str().unicode_len() == 0 {
            push_issue(&mut issues, ValidationIssue::error(
                ValidationErrorCategory::RequiredField,
                "name",
                "Package name is required",
                None,
                Some("Add 'name: your-package-name' to the package file."),
            ));
        } else if !Package::is_valid_package_name(package.name.as_str()) {
            push_issue(&mut issues, ValidationIssue::error(
                ValidationErrorCategory::InvalidValue,
                "name",
                "Package name contains invalid characters",
                None,
                Some("Use only alphanumeric characters, hyphens, and underscores."),
            ));
        }
        if package.version.as_str().unicode_len() == 0 {
            push_issue(&mut issues, ValidationIssue::error(
                ValidationErrorCategory::RequiredField,
                "version",
                "Package version is required",
                None,
                Some("Add 'version: 0.1.0' to the package file."),
            ));
        } else if !Package::is_valid_version(package.version.as_str()) {
            push_issue(&mut issues, ValidationIssue::warning(
                ValidationErrorCategory::InvalidValue,
                "version",
                "Package version should follow semantic versioning",
                None,
                Some("Consider using a semantic version like '1.0.0'."),
            ));
        }
        if package.environments.is_empty() {
            push_issue(&mut issues, ValidationIssue::error(
                ValidationErrorCategory::RequiredField,
                "environments",
                "At least one environment must be defined",
                None,
                Some("Add an 'environments' section with at least one environment."),
            ));
        }
        assert(issues_view(issues@) =~= validator_required_issues(
            package.name@,
            valid_package_name(package.name@),
            package.version@,
            semver_pattern_matches(package.version@),
            package.environments@.len() > 0,
        ));
        add_all(result, issues);
    }

    /// Check a URL field.
    fn validate_url(url: &str, field_name: &str, result: &mut ValidationResult)
        ensures
            issues_view(final(result).issues@) == issues_view(old(result).issues@) + url_field_issues(url_parse_outcome(url@), field_name@),
            final(result).package_name == old(result).package_name,
            final(result).package_path == old(result).package_path,
            final(result).package == old(result).package,
    {
        let outcome = parse_url_scheme(url);
        let mut issues: Vec<ValidationIssue> = Vec::new();
        match &outcome {
            Ok(scheme) => {
                if !str_eq(scheme.as_str(), "http") && !str_eq(scheme.as_str(), "https") {
                    let msg = concat2("URL should use http or https scheme, found: ", scheme.as_str());
                    push_issue(&mut issues, ValidationIssue::warning(
                        ValidationErrorCategory::UrlFormat,
                        field_name,
                        msg.as_str(),
                        None,
                        Some("Use https:// prefix for the URL."),
                    ));
                }
            },
            Err(e) => {
                let msg = concat2("Invalid URL format: ", e.as_str());
                push_issue(&mut issues, ValidationIssue::error(
                    ValidationErrorCategory::UrlFormat,
                    field_name,
                    msg.as_str(),
                    None,
                    Some("Provide a valid URL with http:// or https:// prefix."),
                ));
            },
        }
        assert(issues_view(issues@) =~= url_field_issues(url_parse_outcome(url@), field_name@));
        add_all(result, issues);
    }

    /// Check the environments section.
    fn validate_environments(&self, package: &Package, result: &mut ValidationResult)
        ensures
            issues_view(final(result).issues@) == issues_view(old(result).issues@)
                + validator_environment_issues(package.environments@, self.environment()@),
            final(result).package_name == old(result).package_name,
            final(result).package_path == old(result).package_path,
            final(result).package == old(result).package,
    {
        let ghost start = issues_view(result.issues@);
        if package.environments.is_empty() {
            assert(start + validator_environment_issues(package.environments@, self.environment()@) =~= start);
            return;
        }
        let current = self.environment.as_str();
        if current.unicode_len() != 0 && !package.environments.contains_key(current) {
            let msg = concat3("Current environment '", current, "' is not configured");
            let hint = concat3("Add an environment section for '", current, "' if needed for this environment.");
            let ghost before = result.issues@;
            result.add_issue(ValidationIssue::warning(
                ValidationErrorCategory::Environment,
                "environments",
                msg.as_str(),
                None,
                Some(hint.as_str()),
            ));
            assert(issues_view(result.issues@) =~= start + seq![missing_environment_issue(current@)]);
        }
        let ghost mid = issues_view(result.issues@);
        let n = package.environments.len();
        let mut k: usize = 0;
        while k < n
            invariant
                n == package.environments@.len(),
                k <= n,
                issues_view(result.issues@) == mid + environments_config_issues(package.environments@.take(k as int)),
                result.package_name == old(result).package_name,
                result.package_path == old(result).package_path,
                result.package == old(result).package,
            decreases n - k,
        {
            let name = package.environments.key_at(k);
            let cfg = package.environments.config_at(k);
            Self::validate_environment_config(name.as_str(), cfg, result);
            proof {
                let t = package.environments@.take(k + 1);
                assert(t.drop_last() =~= package.environments@.take(k as int));
            }
            k = k + 1;
        }
        assert(package.environments@.take(n as int) =~= package.environments@);
    }

    /// Check one environment's configuration.
    fn validate_environment_config(env_name: &str, env_config: &EnvironmentConfig, result: &mut ValidationResult)
        ensures
            issues_view(final(result).issues@) == issues_view(old(result).issues@) + environment_config_issues(env_name@, env_config@),
            final(result).package_name == old(result).package_name,
            final(result).package_path == old(result).package_path,
            final(result).package == old(result).package,
    {
        let ghost start = issues_view(result.issues@);
        let install_name = concat3("environments.", env_name, ".install");
        if env_config.install.as_str().unicode_len() == 0 {
            let ghost before = result.issues@;
            result.add_issue(ValidationIssue::error(
                ValidationErrorCategory::RequiredField,
                install_name.as_str(),
                "Install command is required",
                None,
                Some("Add an install command like 'brew install package-name'."),
            ));
            assert(issues_view(result.issues@) =~= issues_view(before).push(result.issues@.last()@));
        } else {
            Self::validate_command_syntax(env_config.install.as_str(), install_name.as_str(), result);
        }
        let ghost a = issues_view(result.issues@);
        match &env_config.check {
            Some(check_cmd) => {
                let check_name = concat3("environments.", env_name, ".check");
                Self::validate_command_syntax(check_cmd.as_str(), check_name.as_str(), result);
            },
            None => {},
        }
        let deps = Package::dependency_checks(env_name, &env_config.dependencies);
        add_all(result, deps);
        assert(issues_view(result.issues@) =~= start + environment_config_issues(env_name@, env_config@));
    }

    /// Check a command for basic shell syntax errors.
    fn validate_command_syntax(command: &str, field_name: &str, result: &mut ValidationResult)
        ensures
            issues_view(final(result).issues@) == issues_view(old(result).issues@) + command_issues(command@, field_name@),
            final(result).package_name == old(result).package_name,
            final(result).package_path == old(result).package_path,
            final(result).package == old(result).package,
    {
        let issues = Package::validate_single_command(command, field_name);
        add_all(result, issues);
    }
}

/// The report of a validation result for display, styled when `use_colors`
/// and the terminal shows styles. `details` is what the file system said of
/// the package file, used when `verbose`.
pub fn format_validation_result(result: &ValidationResult, use_colors: bool, verbose: bool, details: Option<&FileDetails>) -> (r: String)
    ensures
        r@ == validator_report(*result, false, verbose, match details { Some(d) => Some(*d), None => None })
            || (use_colors && r@ == validator_report(*result, true, verbose, match details { Some(d) => Some(*d), None => None })),
{
    let colored = use_colors && crate::styling::terminal_styles_enabled();
    render_validator_report(result, colored, verbose, details)
}

} // verus!
