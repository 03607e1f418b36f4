//! The application configuration: where packages are, the current
//! environment, display, execution and logging settings, how the command
//! line overrides them, and their checks.

pub mod file_config;
pub mod log_config;
pub mod validate_config;

use vstd::prelude::*;

use crate::bindings::{cpu_count, expand_tilde, expandable_tilde};
use crate::config::{absolute_path, is_absolute_path, not_absolute_message};
use crate::domain::config::file_config::FileConfig;
use crate::domain::config::validate_config::ValidateConfig;
use crate::domain::package::{map_has_key, map_lookup, EnvironmentConfig, Package, PackageValidationError};
use crate::domain::validation::opt_view;
use crate::ports::application::ApplicationArguments;
use crate::text::{concat2, opt_text};

verus! {

pub const VERBOSE_DEFAULT: bool = false;
pub const USE_COLORS_DEFAULT: bool = true;
pub const USE_UNICODE_DEFAULT: bool = true;
pub const STOP_ON_ERROR_DEFAULT: bool = true;
pub const LOGGING_ENABLED_DEFAULT: bool = false;
/// Seconds a command may run.
pub const COMMAND_TIMEOUT_DEFAULT: u64 = 60;
pub const LOG_MAX_FILES_DEFAULT: usize = 10;
pub const LOG_MAX_SIZE_DEFAULT: usize = 10;

/// Logging settings.
#[derive(Debug, Clone, PartialEq)]
pub struct LoggingConfig {
    pub enabled: bool,
    pub directory: Option<String>,
    pub max_files: usize,
    pub max_size: usize,
}

impl Default for LoggingConfig {
    fn default() -> (r: Self)
        ensures
            !r.enabled,
            r.directory is None,
            r.max_files == LOG_MAX_FILES_DEFAULT,
            r.max_size == LOG_MAX_SIZE_DEFAULT,
    {
        LoggingConfig { enabled: false, directory: None, max_files: LOG_MAX_FILES_DEFAULT, max_size: LOG_MAX_SIZE_DEFAULT }
    }
}

/// Errors of configuration checks.
#[derive(Debug, Clone, PartialEq)]
pub enum ConfigValidationError {
    MissingField(String),
    EmptyField(String),
    InvalidPackageDirectory(String),
    EnvironmentNotFound(String),
    InvalidPackage(String),
    InvalidCommandTimeout(String),
    InvalidMaxParallel(String),
    InvalidLogConfig(String),
}

/// The message of a configuration error.
pub open spec fn config_error_text(e: ConfigValidationError) -> Seq<char> {
    match e {
        ConfigValidationError::MissingField(f) => "Missing required field: "@ + f@,
        ConfigValidationError::EmptyField(f) => "Empty field: "@ + f@,
        ConfigValidationError::InvalidPackageDirectory(m) => "Invalid package directory: "@ + m@,
        ConfigValidationError::EnvironmentNotFound(e) => "Environment not found: "@ + e@,
        ConfigValidationError::InvalidPackage(m) => "Invalid package: "@ + m@,
        ConfigValidationError::InvalidCommandTimeout(m) => "Invalid command timeout: "@ + m@,
        ConfigValidationError::InvalidMaxParallel(m) => "Invalid max parallel setting: "@ + m@,
        ConfigValidationError::InvalidLogConfig(m) => "Invalid log configuration: "@ + m@,
    }
}

impl ConfigValidationError {
    /// The error's message.
    pub fn to_string(&self) -> (r: String)
        ensures
            r@ == config_error_text(*self),
            r@ == match self {
                ConfigValidationError::MissingField(f) => "Missing required field: "@ + f@,
                ConfigValidationError::EmptyField(f) => "Empty field: "@ + f@,
                ConfigValidationError::InvalidPackageDirectory(m) => "Invalid package directory: "@ + m@,
                ConfigValidationError::EnvironmentNotFound(e) => "Environment not found: "@ + e@,
                ConfigValidationError::InvalidPackage(m) => "Invalid package: "@ + m@,
                ConfigValidationError::InvalidCommandTimeout(m) => "Invalid command timeout: "@ + m@,
                ConfigValidationError::InvalidMaxParallel(m) => "Invalid max parallel setting: "@ + m@,
                ConfigValidationError::InvalidLogConfig(m) => "Invalid log configuration: "@ + m@,
            },
    {
        match self {
            ConfigValidationError::MissingField(f) => concat2("Missing required field: ", f.as_str()),
            ConfigValidationError::EmptyField(f) => concat2("Empty field: ", f.as_str()),
            ConfigValidationError::InvalidPackageDirectory(m) => concat2("Invalid package directory: ", m.as_str()),
            ConfigValidationError::EnvironmentNotFound(e) => concat2("Environment not found: ", e.as_str()),
            ConfigValidationError::InvalidPackage(m) => concat2("Invalid package: ", m.as_str()),
            ConfigValidationError::InvalidCommandTimeout(m) => concat2("Invalid command timeout: ", m.as_str()),
            ConfigValidationError::InvalidMaxParallel(m) => concat2("Invalid max parallel setting: ", m.as_str()),
            ConfigValidationError::InvalidLogConfig(m) => concat2("Invalid log configuration: ", m.as_str()),
        }
    }
}

/// The application configuration.
#[derive(Debug, Clone)]
pub struct AppConfig {
    pub environment: String,
    pub package_directory: String,
    pub verbose: bool,
    pub use_colors: bool,
    pub use_unicode: bool,
    /// Seconds a command may run
    pub command_timeout: u64,
    pub stop_on_error: bool,
    pub max_parallel_installations: usize,
    pub logging: LoggingConfig,
}

/// `r` is the outcome of the full check of `c` whose package directory
/// expands to `expanded`: environment, package directory, timeout, parallel
/// installations and, when logging is enabled, the log settings, in order.
pub open spec fn app_validation(r: Result<(), ConfigValidationError>, c: AppConfig, expanded: Seq<char>) -> bool {
    if c.environment@.len() == 0 {
        r matches Err(ConfigValidationError::EmptyField(f)) && f@ == "environment"@
    } else if c.package_directory@.len() == 0 {
        r matches Err(ConfigValidationError::EmptyField(f)) && f@ == "package_directory"@
    } else if !absolute_path(expanded) {
        r matches Err(ConfigValidationError::InvalidPackageDirectory(m)) && m@ == not_absolute_message()
    } else if c.command_timeout == 0 {
        r matches Err(ConfigValidationError::InvalidCommandTimeout(m)) && m@ == "Command timeout must be greater than 0"@
    } else if c.max_parallel_installations == 0 {
        r matches Err(ConfigValidationError::InvalidMaxParallel(m)) && m@ == "Max parallel installations must be greater than 0"@
    } else if c.logging.enabled && opt_text(opt_view(c.logging.directory)).len() == 0 {
        r matches Err(ConfigValidationError::InvalidLogConfig(m)) && m@ == "Log directory must be specified when logging is enabled"@
    } else if c.logging.enabled && c.logging.max_files == 0 {
        r matches Err(ConfigValidationError::InvalidLogConfig(m)) && m@ == "Max log files must be greater than 0"@
    } else if c.logging.enabled && c.logging.max_size == 0 {
        r matches Err(ConfigValidationError::InvalidLogConfig(m)) && m@ == "Max log size must be greater than 0"@
    } else {
        r is Ok
    }
}

/// `r` is the outcome of the minimal check of a package directory that
/// expands to `expanded`: it must be given and absolute.
pub open spec fn minimal_validation(r: Result<(), ConfigValidationError>, dir: Seq<char>, expanded: Seq<char>) -> bool {
    if dir.len() == 0 {
        r matches Err(ConfigValidationError::EmptyField(f)) && f@ == "package_directory"@
    } else if !absolute_path(expanded) {
        r matches Err(ConfigValidationError::InvalidPackageDirectory(m)) && m@ == not_absolute_message()
    } else {
        r is Ok
    }
}

/// `r` is the configuration of `package` for `environment`, or the error
/// saying why there is none.
pub open spec fn environment_resolution<'a>(
    r: Result<&'a EnvironmentConfig, ConfigValidationError>,
    environment: Seq<char>,
    package: Package,
) -> bool {
    if environment.len() == 0 || package.environments@.len() == 0 {
        r matches Err(ConfigValidationError::InvalidPackage(m)) && m@ == "Package has no environments"@
    } else if map_has_key(package.environments@, environment) {
        r matches Ok(c) && map_lookup(package.environments@, environment) == Some(c@)
    } else {
        r matches Err(ConfigValidationError::EnvironmentNotFound(e)) && e@ == environment
    }
}

/// The package's configuration for an environment.
pub fn resolve_for<'a>(environment: &String, package: &'a Package) -> (r: Result<&'a EnvironmentConfig, ConfigValidationError>)
    ensures
        environment_resolution(r, environment@, *package),
{
    if environment.as_str().unicode_len() == 0 {
        return Err(ConfigValidationError::InvalidPackage(String::from_str("Package has no environments")));
    }
    match package.resolve_environment(environment.as_str()) {
        Ok(c) => Ok(c),
        Err(PackageValidationError::EnvironmentNotSupported(_)) => Err(ConfigValidationError::EnvironmentNotFound(environment.clone())),
        Err(PackageValidationError::MissingField(_)) => Err(ConfigValidationError::InvalidPackage(String::from_str("Package has no environments"))),
        Err(_) => Err(ConfigValidationError::InvalidPackage(String::from_str("Invalid package configuration"))),
    }
}

/// The minimal check of a package directory, given it as expanded.
pub fn validate_directory(dir: &str, expanded: &str) -> (r: Result<(), ConfigValidationError>)
    ensures
        minimal_validation(r, dir@, expanded@),
{
    if dir.unicode_len() == 0 {
        return Err(ConfigValidationError::EmptyField(String::from_str("package_directory")));
    }
    if !is_absolute_path(expanded) {
        return Err(ConfigValidationError::InvalidPackageDirectory(String::from_str("Package directory must be an absolute path")));
    }
    Ok(())
}

/// Once the environment and the package directory are given, the full check
/// of an application configuration whose directory expands to a path that
/// does not start at the root is refused with `InvalidPackageDirectory`,
/// whatever the other settings are; so is the minimal check of such a
/// directory.
pub proof fn law_app_relative_expansion_refused(
    r: Result<(), ConfigValidationError>,
    m: Result<(), ConfigValidationError>,
    c: AppConfig,
    expanded: Seq<char>,
)
    requires
        app_validation(r, c, expanded),
        minimal_validation(m, c.package_directory@, expanded),
        c.environment@.len() > 0,
        c.package_directory@.len() > 0,
        expanded.len() == 0 || expanded[0] != '/',
    ensures
        r matches Err(ConfigValidationError::InvalidPackageDirectory(e)) && e@ == "Package directory must be an absolute path"@,
        m matches Err(ConfigValidationError::InvalidPackageDirectory(e)) && e@ == "Package directory must be an absolute path"@,
{
}

/// An application configuration with an environment and a package directory
/// that starts neither at the root nor with `~` (such as `./packages`) is
/// refused by `AppConfig::validate` and `AppConfig::validate_minimal` with
/// `InvalidPackageDirectory`.
pub proof fn law_app_relative_directory_refused(
    r: Result<(), ConfigValidationError>,
    m: Result<(), ConfigValidationError>,
    c: AppConfig,
)
    requires
        !expandable_tilde(c.package_directory@) ==> app_validation(r, c, c.package_directory@),
        !expandable_tilde(c.package_directory@) ==> minimal_validation(m, c.package_directory@, c.package_directory@),
        c.environment@.len() > 0,
        c.package_directory@.len() > 0,
        c.package_directory@[0] != '/',
        c.package_directory@[0] != '~',
    ensures
        r matches Err(ConfigValidationError::InvalidPackageDirectory(e)) && e@ == "Package directory must be an absolute path"@,
        m matches Err(ConfigValidationError::InvalidPackageDirectory(e)) && e@ == "Package directory must be an absolute path"@,
{
    law_app_relative_expansion_refused(r, m, c, c.package_directory@);
}

/// The configuration with the command line's overrides: the environment and
/// the package directory when given, verbosity, and colors unless disabled.
pub open spec fn overridden(
    c: AppConfig,
    environment: Option<String>,
    package_directory: Option<String>,
    verbose: bool,
    no_color: bool,
) -> AppConfig {
    AppConfig {
        environment: match environment { Some(e) => e, None => c.environment },
        package_directory: match package_directory { Some(d) => d, None => c.package_directory },
        verbose,
        use_colors: !no_color,
        ..c
    }
}

/// Applying the same command-line overrides twice is applying them once.
pub proof fn law_overrides_idempotent(
    c: AppConfig,
    environment: Option<String>,
    package_directory: Option<String>,
    verbose: bool,
    no_color: bool,
)
    ensures
        overridden(overridden(c, environment, package_directory, verbose, no_color), environment, package_directory, verbose, no_color)
            == overridden(c, environment, package_directory, verbose, no_color),
{
}

impl AppConfig {
    pub fn environment(&self) -> (r: &str)
        ensures
            r@ == self.environment@,
    {
        self.environment.as_str()
    }

    pub fn package_directory(&self) -> (r: &String)
        ensures
            r == self.package_directory,
    {
        &self.package_directory
    }

    pub fn verbose(&self) -> (r: bool)
        ensures
            r == self.verbose,
    {
        self.verbose
    }

    pub fn use_colors(&self) -> (r: bool)
        ensures
            r == self.use_colors,
    {
        self.use_colors
    }

    pub fn use_unicode(&self) -> (r: bool)
        ensures
            r == self.use_unicode,
    {
        self.use_unicode
    }

    /// The time a command may run, in nanoseconds.
    pub fn command_timeout(&self) -> (r: u128)
        ensures
            r == self.command_timeout as u128 * 1_000_000_000,
    {
        self.command_timeout as u128 * 1_000_000_000
    }

    pub fn max_parallel(&self) -> (r: usize)
        ensures
            r == self.max_parallel_installations,
    {
        self.max_parallel_installations
    }

    pub fn stop_on_error(&self) -> (r: bool)
        ensures
            r == self.stop_on_error,
    {
        self.stop_on_error
    }

    pub fn logging_enabled(&self) -> (r: bool)
        ensures
            r == self.logging.enabled,
    {
        self.logging.enabled
    }

    pub fn log_directory(&self) -> (r: Option<&String>)
        ensures
            r == match self.logging.directory {
                Some(d) => Some(&d),
                None => None::<&String>,
            },
    {
        match &self.logging.directory {
            Some(d) => Some(d),
            None => None,
        }
    }

    pub fn log_max_files(&self) -> (r: usize)
        ensures
            r == self.logging.max_files,
    {
        self.logging.max_files
    }

    pub fn log_max_size(&self) -> (r: usize)
        ensures
            r == self.logging.max_size,
    {
        self.logging.max_size
    }

    /// A configuration with the default settings: quiet, colored, Unicode,
    /// a 60-second timeout, one parallel installation per CPU, stopping on
    /// errors, no logging.
    pub fn new(environment: String, package_directory: String) -> (r: Self)
        ensures
            r.environment == environment,
            r.package_directory == package_directory,
            r.verbose == VERBOSE_DEFAULT,
            r.use_colors == USE_COLORS_DEFAULT,
            r.use_unicode == USE_UNICODE_DEFAULT,
            r.command_timeout == COMMAND_TIMEOUT_DEFAULT,
            r.max_parallel_installations >= 1,
            r.stop_on_error == STOP_ON_ERROR_DEFAULT,
            !r.logging.enabled && r.logging.directory is None,
            r.logging.max_files == LOG_MAX_FILES_DEFAULT && r.logging.max_size == LOG_MAX_SIZE_DEFAULT,
    {
        AppConfig {
            environment,
            package_directory,
            verbose: VERBOSE_DEFAULT,
            use_colors: USE_COLORS_DEFAULT,
            use_unicode: USE_UNICODE_DEFAULT,
            command_timeout: COMMAND_TIMEOUT_DEFAULT,
            stop_on_error: STOP_ON_ERROR_DEFAULT,
            max_parallel_installations: cpu_count(),
            logging: LoggingConfig::default(),
        }
    }

    /// The configuration from a configuration file: what the file sets, and
    /// the defaults for the rest.
    pub fn from_file_config(config: FileConfig) -> (r: Self)
        ensures
            r.environment == config.environment,
            r.package_directory == config.package_directory,
            r.verbose == VERBOSE_DEFAULT,
            r.use_colors == USE_COLORS_DEFAULT,
            r.use_unicode == USE_UNICODE_DEFAULT,
            r.command_timeout == match config.command_timeout { Some(t) => t, None => COMMAND_TIMEOUT_DEFAULT },
            config.max_parallel_installations matches Some(m) ==> r.max_parallel_installations == m,
            config.max_parallel_installations is None ==> r.max_parallel_installations >= 1,
            r.stop_on_error == match config.stop_on_error { Some(s) => s, None => STOP_ON_ERROR_DEFAULT },
            r.logging.enabled == (config.logging matches Some(l) && l.enabled),
            r.logging.directory == match config.logging { Some(l) => Some(l.directory), None => None::<String> },
            r.logging.max_files == match config.logging { Some(l) => l.max_files, None => LOG_MAX_FILES_DEFAULT },
            r.logging.max_size == match config.logging { Some(l) => l.max_size, None => LOG_MAX_SIZE_DEFAULT },
    {
        let max_parallel = match config.max_parallel_installations {
            Some(m) => m,
            None => cpu_count(),
        };
        let logging = match config.logging {
            Some(l) => LoggingConfig { enabled: l.enabled, directory: Some(l.directory), max_files: l.max_files, max_size: l.max_size },
            None => LoggingConfig::default(),
        };
        AppConfig {
            environment: config.environment,
            package_directory: config.package_directory,
            verbose: VERBOSE_DEFAULT,
            use_colors: USE_COLORS_DEFAULT,
            use_unicode: USE_UNICODE_DEFAULT,
            command_timeout: match config.command_timeout {
                Some(t) => t,
                None => COMMAND_TIMEOUT_DEFAULT,
            },
            stop_on_error: match config.stop_on_error {
                Some(s) => s,
                None => STOP_ON_ERROR_DEFAULT,
            },
            max_parallel_installations: max_parallel,
            logging,
        }
    }

    /// Override settings from the command line: the environment and the
    /// package directory when given, verbosity, and colors unless disabled.
    pub fn apply_cli_overrides(
        self,
        environment: Option<String>,
        package_directory: Option<String>,
        verbose: bool,
        no_color: bool,
    ) -> (r: Self)
        ensures
            r.environment == match environment { Some(e) => e, None => self.environment },
            r.package_directory == match package_directory { Some(d) => d, None => self.package_directory },
            r.verbose == verbose,
            r.use_colors == !no_color,
            r.use_unicode == self.use_unicode,
            r.command_timeout == self.command_timeout,
            r.stop_on_error == self.stop_on_error,
            r.max_parallel_installations == self.max_parallel_installations,
            r.logging == self.logging,
            r == overridden(self, environment, package_directory, verbose, no_color),
    {
        let mut c = self;
        match environment {
            Some(e) => {
                c.environment = e;
            },
            None => {},
        }
        match package_directory {
            Some(d) => {
                c.package_directory = d;
            },
            None => {},
        }
        c.verbose = verbose;
        c.use_colors = !no_color;
        c
    }

    /// Override settings from the application's arguments.
    pub fn apply_cli_args(self, args: &ApplicationArguments) -> (r: Self)
        ensures
            r.environment == match args.environment { Some(e) => e, None => self.environment },
            r.package_directory == match args.package_directory { Some(d) => d, None => self.package_directory },
            r.verbose == args.verbose,
            r.use_colors == !args.no_color,
            r.use_unicode == self.use_unicode,
            r.command_timeout == self.command_timeout,
            r.stop_on_error == self.stop_on_error,
            r.max_parallel_installations == self.max_parallel_installations,
            r.logging == self.logging,
    {
        let environment = crate::text::clone_opt(&args.environment);
        let package_directory = crate::text::clone_opt(&args.package_directory);
        self.apply_cli_overrides(environment, package_directory, args.verbose, args.no_color)
    }

    /// The full check, given the package directory as expanded.
    pub fn validate_expanded(&self, expanded: &str) -> (r: Result<(), ConfigValidationError>)
        ensures
            app_validation(r, *self, expanded@),
    {
        match Self::validate_environment(self.environment.as_str()) {
            Ok(()) => {},
            Err(e) => {
                return Err(e);
            },
        }
        match validate_directory(self.package_directory.as_str(), expanded) {
            Ok(()) => {},
            Err(e) => {
                return Err(e);
            },
        }
        match Self::validate_command_timeout(self.command_timeout) {
            Ok(()) => {},
            Err(e) => {
                return Err(e);
            },
        }
        match Self::validate_max_parallel_installations(self.max_parallel_installations) {
            Ok(()) => {},
            Err(e) => {
                return Err(e);
            },
        }
        if self.logging.enabled {
            let directory: &str = match &self.logging.directory {
                Some(d) => d.as_str(),
                None => "",
            };
            proof {
                reveal_strlit("");
            }
            match Self::validate_log_directory(directory) {
                Ok(()) => {},
                Err(e) => {
                    return Err(e);
                },
            }
            match Self::validate_log_max_files(self.logging.max_files) {
                Ok(()) => {},
                Err(e) => {
                    return Err(e);
                },
            }
            match Self::validate_log_max_size(self.logging.max_size) {
                Ok(()) => {},
                Err(e) => {
                    return Err(e);
                },
            }
        }
        Ok(())
    }

    /// The full check. Where the package directory starts with `~`, the
    /// outcome depends on the home directory.
    pub fn validate(&self) -> (r: Result<(), ConfigValidationError>)
        ensures
            !expandable_tilde(self.package_directory@) ==> app_validation(r, *self, self.package_directory@),
            expandable_tilde(self.package_directory@) ==> app_validation(r, *self, self.package_directory@)
                || exists|home: Seq<char>| app_validation(r, *self, home + self.package_directory@.drop_first()),
    {
        let expanded = self.expanded_package_directory();
        self.validate_expanded(expanded.as_str())
    }

    /// The check for commands that only need the package directory.
    pub fn validate_minimal(&self) -> (r: Result<(), ConfigValidationError>)
        ensures
            !expandable_tilde(self.package_directory@) ==> minimal_validation(r, self.package_directory@, self.package_directory@),
            expandable_tilde(self.package_directory@) ==> minimal_validation(r, self.package_directory@, self.package_directory@)
                || exists|home: Seq<char>| minimal_validation(r, self.package_directory@, home + self.package_directory@.drop_first()),
    {
        Self::validate_package_directory(self.package_directory.as_str())
    }

    /// The package directory with a leading `~` expanded to the home directory.
    pub fn expanded_package_directory(&self) -> (r: String)
        ensures
            !expandable_tilde(self.package_directory@) ==> r@ == self.package_directory@,
            expandable_tilde(self.package_directory@) ==> r@ == self.package_directory@
                || exists|home: Seq<char>| r@ == home + self.package_directory@.drop_first(),
    {
        expand_tilde(self.package_directory.as_str())
    }

    /// The package's configuration for the current environment.
    pub fn resolve_environment<'a>(&self, package: &'a Package) -> (r: Result<&'a EnvironmentConfig, ConfigValidationError>)
        ensures
            environment_resolution(r, self.environment@, *package),
    {
        resolve_for(&self.environment, package)
    }
}

/// Builds an application configuration, mostly for tests.
pub struct AppConfigBuilder {
    config: AppConfig,
}

impl View for AppConfigBuilder {
    type V = AppConfig;

    /// The configuration `build` would give now.
    closed spec fn view(&self) -> AppConfig {
        self.config
    }
}

impl Default for AppConfigBuilder {
    /// A builder with the default settings and no environment or package directory.
    fn default() -> (r: Self)
        ensures
            r@.environment@.len() == 0,
            r@.package_directory@.len() == 0,
            r@.verbose == VERBOSE_DEFAULT,
            r@.use_colors == USE_COLORS_DEFAULT,
            r@.use_unicode == USE_UNICODE_DEFAULT,
            r@.command_timeout == COMMAND_TIMEOUT_DEFAULT,
            r@.max_parallel_installations >= 1,
            r@.stop_on_error == STOP_ON_ERROR_DEFAULT,
            !r@.logging.enabled && r@.logging.directory is None,
            r@.logging.max_files == LOG_MAX_FILES_DEFAULT && r@.logging.max_size == LOG_MAX_SIZE_DEFAULT,
    {
        AppConfigBuilder { config: AppConfig::new(String::new(), String::new()) }
    }
}

impl AppConfigBuilder {
    pub fn environment(self, environment: &str) -> (r: Self)
        ensures
            r@ == (AppConfig { environment: r@.environment, ..self@ }),
            r@.environment@ == environment@,
    {
        let mut b = self;
        b.config.environment = String::from_str(environment);
        b
    }

    pub fn package_directory(self, package_directory: &str) -> (r: Self)
        ensures
            r@ == (AppConfig { package_directory: r@.package_directory, ..self@ }),
            r@.package_directory@ == package_directory@,
    {
        let mut b = self;
        b.config.package_directory = String::from_str(package_directory);
        b
    }

    pub fn verbose(self, verbose: bool) -> (r: Self)
        ensures
            r@ == (AppConfig { verbose, ..self@ }),
    {
        let mut b = self;
        b.config.verbose = verbose;
        b
    }

    pub fn use_colors(self, use_colors: bool) -> (r: Self)
        ensures
            r@ == (AppConfig { use_colors, ..self@ }),
    {
        let mut b = self;
        b.config.use_colors = use_colors;
        b
    }

    pub fn use_unicode(self, use_unicode: bool) -> (r: Self)
        ensures
            r@ == (AppConfig { use_unicode, ..self@ }),
    {
        let mut b = self;
        b.config.use_unicode = use_unicode;
        b
    }

    /// Set the command timeout, in seconds.
    pub fn command_timeout(self, timeout: u64) -> (r: Self)
        ensures
            r@ == (AppConfig { command_timeout: timeout, ..self@ }),
    {
        let mut b = self;
        b.config.command_timeout = timeout;
        b
    }

    /// Set the command timeout, in seconds, which must not be zero.
    pub fn command_timeout_unchecked(self, timeout: u64) -> (r: Self)
        requires
            timeout > 0,
        ensures
            r@ == (AppConfig { command_timeout: timeout, ..self@ }),
    {
        self.command_timeout(timeout)
    }

    pub fn max_parallel(self, max: usize) -> (r: Self)
        ensures
            r@ == (AppConfig { max_parallel_installations: max, ..self@ }),
    {
        let mut b = self;
        b.config.max_parallel_installations = max;
        b
    }

    /// Set the number of parallel installations, which must not be zero.
    pub fn max_parallel_unchecked(self, max: usize) -> (r: Self)
        requires
            max > 0,
        ensures
            r@ == (AppConfig { max_parallel_installations: max, ..self@ }),
    {
        self.max_parallel(max)
    }

    pub fn stop_on_error(self, stop: bool) -> (r: Self)
        ensures
            r@ == (AppConfig { stop_on_error: stop, ..self@ }),
    {
        let mut b = self;
        b.config.stop_on_error = stop;
        b
    }

    pub fn logging_enabled(self, enabled: bool) -> (r: Self)
        ensures
            r@ == (AppConfig { logging: LoggingConfig { enabled, ..self@.logging }, ..self@ }),
    {
        let mut b = self;
        b.config.logging.enabled = enabled;
        b
    }

    pub fn log_directory(self, directory: &str) -> (r: Self)
        ensures
            r@ == (AppConfig { logging: LoggingConfig { directory: r@.logging.directory, ..self@.logging }, ..self@ }),
            r@.logging.directory matches Some(d) && d@ == directory@,
    {
        let mut b = self;
        b.config.logging.directory = Some(String::from_str(directory));
        b
    }

    pub fn log_max_files(self, max: usize) -> (r: Self)
        ensures
            r@ == (AppConfig { logging: LoggingConfig { max_files: max, ..self@.logging }, ..self@ }),
    {
        let mut b = self;
        b.config.logging.max_files = max;
        b
    }

    /// Set the number of log files kept, which must not be zero.
    pub fn log_max_files_unchecked(self, max: usize) -> (r: Self)
        requires
            max > 0,
        ensures
            r@ == (AppConfig { logging: LoggingConfig { max_files: max, ..self@.logging }, ..self@ }),
    {
        self.log_max_files(max)
    }

    pub fn log_max_size(self, max: usize) -> (r: Self)
        ensures
            r@ == (AppConfig { logging: LoggingConfig { max_size: max, ..self@.logging }, ..self@ }),
    {
        let mut b = self;
        b.config.logging.max_size = max;
        b
    }

    /// Set the size of a log file, which must not be zero.
    pub fn log_max_size_unchecked(self, max: usize) -> (r: Self)
        requires
            max > 0,
        ensures
            r@ == (AppConfig { logging: LoggingConfig { max_size: max, ..self@.logging }, ..self@ }),
    {
        self.log_max_size(max)
    }

    pub fn build(self) -> (r: AppConfig)
        ensures
            r == self@,
    {
        self.config
    }
}

} // verus!
