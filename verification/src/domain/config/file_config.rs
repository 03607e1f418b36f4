//! The configuration as a configuration file gives it: the environment and
//! the package directory, and optional settings.

use vstd::prelude::*;

use crate::domain::config::validate_config::ValidateConfig;

use crate::bindings::{expand_tilde, expandable_tilde};
use crate::domain::config::log_config::LogConfig;
use crate::domain::config::{environment_resolution, minimal_validation, resolve_for, ConfigValidationError};
use crate::domain::package::{EnvironmentConfig, Package};

verus! {

/// The configuration of a configuration file.
#[derive(Debug, Clone, PartialEq)]
pub struct FileConfig {
    pub environment: String,
    pub package_directory: String,
    /// Seconds a command may run
    pub command_timeout: Option<u64>,
    pub stop_on_error: Option<bool>,
    pub max_parallel_installations: Option<usize>,
    pub logging: Option<LogConfig>,
}

/// `d` is what the check of the package directory `dir` gives: it must be
/// given and, with a leading `~` expanded to the home directory, absolute.
pub open spec fn directory_outcome(d: Result<(), ConfigValidationError>, dir: Seq<char>) -> bool {
    &&& !expandable_tilde(dir) ==> minimal_validation(d, dir, dir)
    &&& expandable_tilde(dir) ==> minimal_validation(d, dir, dir)
        || exists|home: Seq<char>| minimal_validation(d, dir, home + dir.drop_first())
}

/// `r` is what the checks of the settings give, in order: a timeout and a
/// number of parallel installations that are not zero, log limits that are
/// not zero, and a log directory when logging is enabled.
pub open spec fn settings_outcome(c: FileConfig, r: Result<(), ConfigValidationError>) -> bool {
    if c.command_timeout == Some(0u64) {
        r matches Err(ConfigValidationError::InvalidCommandTimeout(m)) && m@ == "Command timeout must be greater than 0"@
    } else if c.max_parallel_installations == Some(0usize) {
        r matches Err(ConfigValidationError::InvalidMaxParallel(m)) && m@ == "Max parallel installations must be greater than 0"@
    } else if c.logging matches Some(l) && l.max_files == 0 {
        r matches Err(ConfigValidationError::InvalidLogConfig(m)) && m@ == "Max log files must be greater than 0"@
    } else if c.logging matches Some(l) && l.max_size == 0 {
        r matches Err(ConfigValidationError::InvalidLogConfig(m)) && m@ == "Max log size must be greater than 0"@
    } else if c.logging matches Some(l) && l.enabled && l.directory@.len() == 0 {
        r matches Err(ConfigValidationError::InvalidLogConfig(m)) && m@ == "Log directory must be specified when logging is enabled"@
    } else {
        r is Ok
    }
}

/// `r` is what the full check of `c` gives: an empty environment is refused
/// first, then the package directory, then the settings.
pub open spec fn file_config_check(c: FileConfig, r: Result<(), ConfigValidationError>) -> bool {
    &&& c.environment@.len() == 0 ==> (r matches Err(ConfigValidationError::EmptyField(f)) && f@ == "environment"@)
    &&& c.environment@.len() > 0 ==> exists|d: Result<(), ConfigValidationError>| #[trigger] directory_outcome(d, c.package_directory@)
        && (d is Err ==> r == d) && (d is Ok ==> settings_outcome(c, r))
}

impl FileConfig {
    /// A configuration with only the environment and the package directory.
    pub fn new(environment: String, package_directory: String) -> (r: Self)
        ensures
            r == (FileConfig {
                environment,
                package_directory,
                command_timeout: None,
                stop_on_error: None,
                max_parallel_installations: None,
                logging: None,
            }),
    {
        FileConfig {
            environment,
            package_directory,
            command_timeout: None,
            stop_on_error: None,
            max_parallel_installations: None,
            logging: None,
        }
    }

    /// The full check: a non-empty environment, a usable package directory,
    /// and settings that are not zero; with logging enabled, a log directory.
    pub fn validate(&self) -> (r: Result<(), ConfigValidationError>)
        ensures
            file_config_check(*self, r),
    {
        match Self::validate_environment(self.environment.as_str()) {
            Ok(()) => {},
            Err(e) => {
                return Err(e);
            },
        }
        let d = Self::validate_package_directory(self.package_directory.as_str());
        assert(directory_outcome(d, self.package_directory@));
        if d.is_err() {
            return d;
        }
        if let Some(t) = self.command_timeout {
            if let Err(e) = Self::validate_command_timeout(t) {
                return Err(e);
            }
        }
        if let Some(m) = self.max_parallel_installations {
            if let Err(e) = Self::validate_max_parallel_installations(m) {
                return Err(e);
            }
        }
        if let Some(l) = &self.logging {
            if let Err(e) = Self::validate_log_max_files(l.max_files) {
                return Err(e);
            }
            if let Err(e) = Self::validate_log_max_size(l.max_size) {
                return Err(e);
            }
            if l.enabled {
                if let Err(e) = Self::validate_log_directory(l.directory.as_str()) {
                    return Err(e);
                }
            }
        }
        Ok(())
    }

    /// The check for commands that only need the package directory.
    pub fn validate_minimal(&self) -> (r: Result<(), ConfigValidationError>)
        ensures
            !expandable_tilde(self.package_directory@) ==> minimal_validation(r, self.package_directory@, self.package_directory@),
            expandable_tilde(self.package_directory@) ==> minimal_validation(r, self.package_directory@, self.package_directory@)
                || exists|home: Seq<char>| minimal_validation(r, self.package_directory@, home + self.package_directory@.drop_first()),
    {
        Self::validate_package_directory(self.package_directory.as_str())
    }

    /// The package directory with a leading `~` expanded to the home directory.
    pub fn expanded_package_directory(&self) -> (r: String)
        ensures
            !expandable_tilde(self.package_directory@) ==> r@ == self.package_directory@,
            expandable_tilde(self.package_directory@) ==> r@ == self.package_directory@
                || exists|home: Seq<char>| r@ == home + self.package_directory@.drop_first(),
    {
        expand_tilde(self.package_directory.as_str())
    }

    /// The package's configuration for the configured environment.
    pub fn resolve_environment<'a>(&self, package: &'a Package) -> (r: Result<&'a EnvironmentConfig, ConfigValidationError>)
        ensures
            environment_resolution(r, self.environment@, *package),
    {
        resolve_for(&self.environment, package)
    }
}

/// Builds a file configuration, mostly for tests.
pub struct FileConfigBuilder {
    config: FileConfig,
}

impl View for FileConfigBuilder {
    type V = FileConfig;

    /// The configuration `build` would give now.
    closed spec fn view(&self) -> FileConfig {
        self.config
    }
}

impl Default for FileConfigBuilder {
    fn default() -> (r: Self)
        ensures
            r@.environment@.len() == 0,
            r@.package_directory@.len() == 0,
            r@.command_timeout is None,
            r@.stop_on_error is None,
            r@.max_parallel_installations is None,
            r@.logging is None,
    {
        FileConfigBuilder { config: FileConfig::new(String::new(), String::new()) }
    }
}

impl FileConfigBuilder {
    pub fn environment(self, environment: &str) -> (r: Self)
        ensures
            r@ == (FileConfig { environment: r@.environment, ..self@ }),
            r@.environment@ == environment@,
    {
        let mut b = self;
        b.config.environment = String::from_str(environment);
        b
    }

    pub fn package_directory(self, package_directory: &str) -> (r: Self)
        ensures
            r@ == (FileConfig { package_directory: r@.package_directory, ..self@ }),
            r@.package_directory@ == package_directory@,
    {
        let mut b = self;
        b.config.package_directory = String::from_str(package_directory);
        b
    }

    /// Set the command timeout, in seconds (not zero).
    pub fn command_timeout(self, timeout: u64) -> (r: Self)
        requires
            timeout > 0,
        ensures
            r@ == (FileConfig { command_timeout: Some(timeout), ..self@ }),
    {
        let mut b = self;
        b.config.command_timeout = Some(timeout);
        b
    }

    pub fn stop_on_error(self, stop: bool) -> (r: Self)
        ensures
            r@ == (FileConfig { stop_on_error: Some(stop), ..self@ }),
    {
        let mut b = self;
        b.config.stop_on_error = Some(stop);
        b
    }

    /// Set the number of parallel installations (not zero).
    pub fn max_parallel(self, max: usize) -> (r: Self)
        requires
            max > 0,
        ensures
            r@ == (FileConfig { max_parallel_installations: Some(max), ..self@ }),
    {
        let mut b = self;
        b.config.max_parallel_installations = Some(max);
        b
    }

    pub fn build(self) -> (r: FileConfig)
        ensures
            r == self@,
    {
        self.config
    }
}

} // verus!
