//! The checks of the configuration's settings, shared by the configuration
//! file's settings and the application's configuration.

use vstd::prelude::*;

use crate::bindings::{expand_tilde, expandable_tilde};
use crate::domain::config::{minimal_validation, validate_directory, ConfigValidationError};

verus! {

/// The checks of single settings.
pub trait ValidateConfig {
    /// The environment must be given.
    fn validate_environment(environment: &str) -> (r: Result<(), ConfigValidationError>)
        ensures
            environment@.len() == 0 ==> (r matches Err(ConfigValidationError::EmptyField(f)) && f@ == "environment"@),
            environment@.len() > 0 ==> r is Ok,
    {
        if environment.unicode_len() == 0 {
            Err(ConfigValidationError::EmptyField(String::from_str("environment")))
        } else {
            Ok(())
        }
    }

    /// The package directory must be given and, with `~` expanded, absolute.
    /// Where it starts with `~`, the outcome depends on the home directory.
    fn validate_package_directory(package_directory: &str) -> (r: Result<(), ConfigValidationError>)
        ensures
            !expandable_tilde(package_directory@) ==> minimal_validation(r, package_directory@, package_directory@),
            expandable_tilde(package_directory@) ==> minimal_validation(r, package_directory@, package_directory@)
                || exists|home: Seq<char>| minimal_validation(r, package_directory@, home + package_directory@.drop_first()),
    {
        if package_directory.unicode_len() == 0 {
            return Err(ConfigValidationError::EmptyField(String::from_str("package_directory")));
        }
        let expanded = expand_tilde(package_directory);
        validate_directory(package_directory, expanded.as_str())
    }

    /// The command timeout must not be zero.
    fn validate_command_timeout(command_timeout_secs: u64) -> (r: Result<(), ConfigValidationError>)
        ensures
            command_timeout_secs == 0 ==> (r matches Err(ConfigValidationError::InvalidCommandTimeout(m))
                && m@ == "Command timeout must be greater than 0"@),
            command_timeout_secs > 0 ==> r is Ok,
    {
        if command_timeout_secs == 0 {
            Err(ConfigValidationError::InvalidCommandTimeout(String::from_str("Command timeout must be greater than 0")))
        } else {
            Ok(())
        }
    }

    /// At least one installation must be allowed at a time.
    fn validate_max_parallel_installations(max_parallel: usize) -> (r: Result<(), ConfigValidationError>)
        ensures
            max_parallel == 0 ==> (r matches Err(ConfigValidationError::InvalidMaxParallel(m))
                && m@ == "Max parallel installations must be greater than 0"@),
            max_parallel > 0 ==> r is Ok,
    {
        if max_parallel == 0 {
            Err(ConfigValidationError::InvalidMaxParallel(String::from_str("Max parallel installations must be greater than 0")))
        } else {
            Ok(())
        }
    }

    /// A log directory must be given.
    fn validate_log_directory(log_directory: &str) -> (r: Result<(), ConfigValidationError>)
        ensures
            log_directory@.len() == 0 ==> (r matches Err(ConfigValidationError::InvalidLogConfig(m))
                && m@ == "Log directory must be specified when logging is enabled"@),
            log_directory@.len() > 0 ==> r is Ok,
    {
        if log_directory.unicode_len() == 0 {
            Err(ConfigValidationError::InvalidLogConfig(String::from_str("Log directory must be specified when logging is enabled")))
        } else {
            Ok(())
        }
    }

    /// At least one log file must be kept.
    fn validate_log_max_files(max_files: usize) -> (r: Result<(), ConfigValidationError>)
        ensures
            max_files == 0 ==> (r matches Err(ConfigValidationError::InvalidLogConfig(m)) && m@ == "Max log files must be greater than 0"@),
            max_files > 0 ==> r is Ok,
    {
        if max_files == 0 {
            Err(ConfigValidationError::InvalidLogConfig(String::from_str("Max log files must be greater than 0")))
        } else {
            Ok(())
        }
    }

    /// Log files must be allowed some size.
    fn validate_log_max_size(max_size: usize) -> (r: Result<(), ConfigValidationError>)
        ensures
            max_size == 0 ==> (r matches Err(ConfigValidationError::InvalidLogConfig(m)) && m@ == "Max log size must be greater than 0"@),
            max_size > 0 ==> r is Ok,
    {
        if max_size == 0 {
            Err(ConfigValidationError::InvalidLogConfig(String::from_str("Max log size must be greater than 0")))
        } else {
            Ok(())
        }
    }
}

impl ValidateConfig for crate::domain::config::file_config::FileConfig {}

impl ValidateConfig for crate::domain::config::AppConfig {}

} // verus!
