//! The `package validate` command: which package it validates, and what it
//! reports for the validator's outcome. Reading and parsing the package file
//! happens in between, in the application.

use vstd::prelude::*;

use crate::adapters::clap_adapter::PackageSubcommands;
use crate::domain::report::{validator_report, FileDetails};
use crate::domain::validation::ValidationResult;
use crate::package_validator::{format_validation_result, validator_error_text, PackageValidatorError};
use crate::text::{concat2, concat3};

verus! {

/// The outcome of the validate command.
#[derive(Debug)]
pub enum ValidateCommandResult {
    /// The package is valid (it may have warnings); the report
    Valid(String),
    /// The package has errors; the report
    Invalid(String),
    /// The command could not run; why
    Error(String),
}

/// What to validate: the package by name, or the file at a given path.
#[derive(Debug)]
pub struct ValidationTarget {
    pub package_name: String,
    pub package_path: Option<String>,
}

/// How the command's progress display ends: its last message, and whether
/// it finished well or was abandoned.
#[derive(Debug)]
pub struct ValidationProgressEnd {
    pub message: String,
    pub succeeded: bool,
}

/// The message shown when the validator fails for an error.
pub open spec fn validate_error_message(e: PackageValidatorError) -> Seq<char> {
    match e {
        PackageValidatorError::PackageNotFound(name) => "Package '"@ + name@ + "' not found\n\n"@
            + "Verify the package name and make sure the package file exists in the package directory."@,
        PackageValidatorError::MultiplePackagesFound(name) => "Multiple package files found for '"@ + name@ + "'\n\n"@
            + "Use the --package-path flag to specify which file to validate."@,
        _ => "Error: "@ + validator_error_text(e),
    }
}

/// `s` is the report of `v`, styled or (when colors are on) plain.
pub open spec fn is_report(s: Seq<char>, v: ValidationResult, use_colors: bool, verbose: bool, details: Option<FileDetails>) -> bool {
    s == validator_report(v, false, verbose, details) || (use_colors && s == validator_report(v, true, verbose, details))
}

/// The handler of the `package validate` command.
pub struct ValidateCommand {
    use_colors: bool,
    verbose: bool,
}

impl ValidateCommand {
    /// Whether reports are styled.
    pub closed spec fn colors(&self) -> bool {
        self.use_colors
    }

    /// Whether reports are verbose.
    pub closed spec fn is_verbose(&self) -> bool {
        self.verbose
    }

    /// A handler that styles its reports when `use_colors` and gives details when `verbose`.
    pub fn new(use_colors: bool, verbose: bool) -> (r: Self)
        ensures
            r.colors() == use_colors,
            r.is_verbose() == verbose,
    {
        ValidateCommand { use_colors, verbose }
    }

    /// What the subcommand asks to validate; any other subcommand than
    /// `validate` is an error.
    pub fn target(cmd: &PackageSubcommands) -> (r: Result<ValidationTarget, ValidateCommandResult>)
        ensures
            match cmd {
                PackageSubcommands::Validate { package_name, package_path } => r matches Ok(t)
                    && t.package_name@ == package_name@
                    && match package_path {
                        Some(p) => t.package_path matches Some(q) && q@ == p@,
                        None => t.package_path is None,
                    },
                _ => r matches Err(ValidateCommandResult::Error(m))
                    && m@ == "Invalid command. Expected 'validate <package-name>'"@,
            },
    {
        match cmd {
            PackageSubcommands::Validate { package_name, package_path } => Ok(ValidationTarget {
                package_name: package_name.clone(),
                package_path: crate::text::clone_opt(package_path),
            }),
            _ => Err(ValidateCommandResult::Error(String::from_str("Invalid command. Expected 'validate <package-name>'"))),
        }
    }

    /// The message the progress display shows while validating.
    pub fn progress_message(target: &ValidationTarget) -> (r: String)
        ensures
            r@ == "Validating package '"@ + target.package_name@ + "'"@,
    {
        concat3("Validating package '", target.package_name.as_str(), "'")
    }

    /// The command's result for the validator's outcome, and how the
    /// progress display ends: a valid package's report, an invalid one's, or
    /// the error explained.
    pub fn finish(&self, outcome: Result<ValidationResult, PackageValidatorError>, details: Option<&FileDetails>) -> (r: (ValidateCommandResult, ValidationProgressEnd))
        ensures
            match outcome {
                Ok(v) => {
                    let d = match details { Some(d) => Some(*d), None => None };
                    let valid = !(exists|i: int| 0 <= i < v.issues@.len() && !#[trigger] v.issues@[i].is_warning);
                    &&& valid ==> (r.0 matches ValidateCommandResult::Valid(s) && is_report(s@, v, self.colors(), self.is_verbose(), d))
                    &&& valid ==> r.1.message@ == "Validation successful"@ && r.1.succeeded
                    &&& !valid ==> (r.0 matches ValidateCommandResult::Invalid(s) && is_report(s@, v, self.colors(), self.is_verbose(), d))
                    &&& !valid ==> r.1.message@ == "Validation failed"@ && !r.1.succeeded
                },
                Err(e) => (r.0 matches ValidateCommandResult::Error(m) && m@ == validate_error_message(e))
                    && r.1.message@ == "Validation error: "@ + validator_error_text(e) && !r.1.succeeded,
            },
    {
        match outcome {
            Ok(v) => {
                let formatted = format_validation_result(&v, self.use_colors, self.verbose, details);
                if v.is_valid() {
                    (ValidateCommandResult::Valid(formatted), ValidationProgressEnd {
                        message: String::from_str("Validation successful"),
                        succeeded: true,
                    })
                } else {
                    (ValidateCommandResult::Invalid(formatted), ValidationProgressEnd {
                        message: String::from_str("Validation failed"),
                        succeeded: false,
                    })
                }
            },
            Err(err) => {
                let t = err.to_string();
                let end = ValidationProgressEnd { message: concat2("Validation error: ", t.as_str()), succeeded: false };
                let message = match &err {
                    PackageValidatorError::PackageNotFound(name) => {
                        let mut m = concat3("Package '", name.as_str(), "' not found\n\n");
                        m.append("Verify the package name and make sure the package file exists in the package directory.");
                        m
                    },
                    PackageValidatorError::MultiplePackagesFound(name) => {
                        let mut m = concat3("Multiple package files found for '", name.as_str(), "'\n\n");
                        m.append("Use the --package-path flag to specify which file to validate.");
                        m
                    },
                    _ => concat2("Error: ", t.as_str()),
                };
                (ValidateCommandResult::Error(message), end)
            },
        }
    }
}

} // verus!
