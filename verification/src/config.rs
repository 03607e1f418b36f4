//! The basic configuration: the current environment and the directory that
//! holds the package files, with its checks and the choice of a package's
//! configuration for the current environment.

use vstd::prelude::*;

use crate::bindings::{expand_tilde, expandable_tilde};
use crate::domain::package::{map_has_key, map_lookup, EnvironmentConfig, Package, PackageValidationError};
use crate::text::concat2;

verus! {

/// The configuration.
#[derive(Debug, Clone, PartialEq)]
pub struct Config {
    pub environment: String,
    pub package_directory: String,
}

/// Errors of configuration checks.
#[derive(Debug, Clone, PartialEq)]
pub enum ConfigValidationError {
    MissingField(String),
    EmptyField(String),
    InvalidPackageDirectory(String),
    EnvironmentNotFound(String),
    InvalidPackage(String),
}

impl ConfigValidationError {
    /// The error's message.
    pub fn to_string(&self) -> (r: String)
        ensures
            r@ == match self {
                ConfigValidationError::MissingField(f) => "Missing required field: "@ + f@,
                ConfigValidationError::EmptyField(f) => "Empty field: "@ + f@,
                ConfigValidationError::InvalidPackageDirectory(m) => "Invalid package directory: "@ + m@,
                ConfigValidationError::EnvironmentNotFound(e) => "Environment not found: "@ + e@,
                ConfigValidationError::InvalidPackage(m) => "Invalid package: "@ + m@,
            },
    {
        match self {
            ConfigValidationError::MissingField(f) => concat2("Missing required field: ", f.as_str()),
            ConfigValidationError::EmptyField(f) => concat2("Empty field: ", f.as_str()),
            ConfigValidationError::InvalidPackageDirectory(m) => concat2("Invalid package directory: ", m.as_str()),
            ConfigValidationError::EnvironmentNotFound(e) => concat2("Environment not found: ", e.as_str()),
            ConfigValidationError::InvalidPackage(m) => concat2("Invalid package: ", m.as_str()),
        }
    }
}

/// A path is absolute when it starts at the root, as on Unix.
pub open spec fn absolute_path(p: Seq<char>) -> bool {
    p.len() > 0 && p[0] == '/'
}

/// A path counts as absolute only when it starts at the root: an empty path,
/// or one whose first character is anything but `/` (as in `./packages` or
/// `relative/path`), is not absolute.
pub proof fn law_absolute_only_from_root(p: Seq<char>)
    ensures
        absolute_path(p) ==> p.len() > 0 && p[0] == '/',
        (p.len() == 0 || p[0] != '/') ==> !absolute_path(p),
        (p.len() > 0 && p[0] == '/') ==> absolute_path(p),
{
}

/// Whether a path is absolute (starts with `/`).
pub fn is_absolute_path(p: &str) -> (r: bool)
    ensures
        r == absolute_path(p@),
{
    p.unicode_len() > 0 && p.get_char(0) == '/'
}

/// The message of a relative package directory.
pub open spec fn not_absolute_message() -> Seq<char> {
    "Package directory must be an absolute path"@
}

/// `r` is the outcome of checking a configuration whose package directory
/// expands to `expanded`: the environment and the directory must be given,
/// and the expanded directory must be absolute.
pub open spec fn validation_outcome(r: Result<(), ConfigValidationError>, env: Seq<char>, dir: Seq<char>, expanded: Seq<char>) -> bool {
    if env.len() == 0 {
        r matches Err(ConfigValidationError::EmptyField(f)) && f@ == "environment"@
    } else if dir.len() == 0 {
        r matches Err(ConfigValidationError::EmptyField(f)) && f@ == "package_directory"@
    } else if !absolute_path(expanded) {
        r matches Err(ConfigValidationError::InvalidPackageDirectory(m)) && m@ == not_absolute_message()
    } else {
        r is Ok
    }
}

/// Once the environment and the package directory are given, a check of a
/// configuration whose directory expands to a path that does not start at
/// the root is refused with `InvalidPackageDirectory`, and one whose
/// directory expands to a path that does is accepted.
pub proof fn law_relative_expansion_refused(
    r: Result<(), ConfigValidationError>,
    env: Seq<char>,
    dir: Seq<char>,
    expanded: Seq<char>,
)
    requires
        validation_outcome(r, env, dir, expanded),
        env.len() > 0,
        dir.len() > 0,
    ensures
        (expanded.len() == 0 || expanded[0] != '/') ==> (r matches Err(ConfigValidationError::InvalidPackageDirectory(m))
            && m@ == "Package directory must be an absolute path"@),
        (expanded.len() > 0 && expanded[0] == '/') ==> r is Ok,
{
}

/// A configuration with an environment and a package directory that starts
/// neither at the root nor with `~` (such as `./packages`) is refused by
/// `Config::validate` with `InvalidPackageDirectory`.
pub proof fn law_relative_directory_refused(c: Config, r: Result<(), ConfigValidationError>)
    requires
        !expandable_tilde(c.package_directory@) ==> validation_outcome(r, c.environment@, c.package_directory@, c.package_directory@),
        c.environment@.len() > 0,
        c.package_directory@.len() > 0,
        c.package_directory@[0] != '/',
        c.package_directory@[0] != '~',
    ensures
        r matches Err(ConfigValidationError::InvalidPackageDirectory(m)) && m@ == "Package directory must be an absolute path"@,
{
    law_relative_expansion_refused(r, c.environment@, c.package_directory@, c.package_directory@);
}

impl Config {
    /// A configuration.
    pub fn new(environment: String, package_directory: String) -> (r: Self)
        ensures
            r.environment == environment,
            r.package_directory == package_directory,
    {
        Config { environment, package_directory }
    }

    /// Check the configuration, given its package directory as expanded.
    pub fn validate_expanded(&self, expanded: &str) -> (r: Result<(), ConfigValidationError>)
        ensures
            validation_outcome(r, self.environment@, self.package_directory@, expanded@),
    {
        if self.environment.as_str().unicode_len() == 0 {
            return Err(ConfigValidationError::EmptyField(String::from_str("environment")));
        }
        if self.package_directory.as_str().unicode_len() == 0 {
            return Err(ConfigValidationError::EmptyField(String::from_str("package_directory")));
        }
        if !is_absolute_path(expanded) {
            return Err(ConfigValidationError::InvalidPackageDirectory(String::from_str("Package directory must be an absolute path")));
        }
        Ok(())
    }

    /// Check the configuration: the environment and the package directory
    /// must be given, and the directory, with a leading `~` expanded to the
    /// home directory, must be absolute. Where the directory starts with such
    /// a `~`, the outcome depends on the home directory.
    pub fn validate(&self) -> (r: Result<(), ConfigValidationError>)
        ensures
            !expandable_tilde(self.package_directory@) ==> validation_outcome(
                r,
                self.environment@,
                self.package_directory@,
                self.package_directory@,
            ),
            expandable_tilde(self.package_directory@) ==> validation_outcome(r, self.environment@, self.package_directory@, self.package_directory@)
                || exists|home: Seq<char>| validation_outcome(r, self.environment@, self.package_directory@, home + self.package_directory@.drop_first()),
    {
        let expanded = self.expanded_package_directory();
        let r = self.validate_expanded(expanded.as_str());
        r
    }

    /// The package directory with a leading `~` expanded to the home directory.
    pub fn expanded_package_directory(&self) -> (r: String)
        ensures
            !expandable_tilde(self.package_directory@) ==> r@ == self.package_directory@,
            expandable_tilde(self.package_directory@) ==> r@ == self.package_directory@
                || exists|home: Seq<char>| r@ == home + self.package_directory@.drop_first(),
    {
        expand_tilde(self.package_directory.as_str())
    }

    /// The package's configuration for the current environment. An empty
    /// environment, or a package without environments, is an invalid package;
    /// a package without the current environment does not support it.
    pub fn resolve_environment<'a>(&self, package: &'a Package) -> (r: Result<&'a EnvironmentConfig, ConfigValidationError>)
        ensures
            self.environment@.len() == 0 ==> (r matches Err(ConfigValidationError::InvalidPackage(m)) && m@ == "Package has no environments"@),
            self.environment@.len() > 0 && map_has_key(package.environments@, self.environment@) ==> (r matches Ok(c)
                && map_lookup(package.environments@, self.environment@) == Some(c@)),
            self.environment@.len() > 0 && !map_has_key(package.environments@, self.environment@) && package.environments@.len() == 0
                ==> (r matches Err(ConfigValidationError::InvalidPackage(m)) && m@ == "Package has no environments"@),
            self.environment@.len() > 0 && !map_has_key(package.environments@, self.environment@) && package.environments@.len() > 0
                ==> (r matches Err(ConfigValidationError::EnvironmentNotFound(e)) && e@ == self.environment@),
    {
        if self.environment.as_str().unicode_len() == 0 {
            return Err(ConfigValidationError::InvalidPackage(String::from_str("Package has no environments")));
        }
        match package.resolve_environment(self.environment.as_str()) {
            Ok(c) => Ok(c),
            Err(PackageValidationError::EnvironmentNotSupported(_)) => Err(ConfigValidationError::EnvironmentNotFound(self.environment.clone())),
            Err(PackageValidationError::MissingField(_)) => Err(ConfigValidationError::InvalidPackage(String::from_str("Package has no environments"))),
            Err(_) => Err(ConfigValidationError::InvalidPackage(String::from_str("Invalid package configuration"))),
        }
    }
}

/// Builds a configuration, mostly for tests.
#[derive(Debug)]
pub struct ConfigBuilder {
    environment: String,
    package_directory: String,
}

impl View for ConfigBuilder {
    type V = Config;

    /// The configuration `build` would give now.
    closed spec fn view(&self) -> Config {
        Config { environment: self.environment, package_directory: self.package_directory }
    }
}

impl Default for ConfigBuilder {
    fn default() -> (r: Self)
        ensures
            r@.environment@.len() == 0,
            r@.package_directory@.len() == 0,
    {
        ConfigBuilder { environment: String::new(), package_directory: String::new() }
    }
}

impl ConfigBuilder {
    /// Set the environment.
    pub fn environment(self, environment: &str) -> (r: Self)
        ensures
            r@.environment@ == environment@,
            r@.package_directory == self@.package_directory,
    {
        ConfigBuilder { environment: String::from_str(environment), package_directory: self.package_directory }
    }

    /// Set the package directory.
    pub fn package_directory(self, package_directory: &str) -> (r: Self)
        ensures
            r@.package_directory@ == package_directory@,
            r@.environment == self@.environment,
    {
        ConfigBuilder { environment: self.environment, package_directory: String::from_str(package_directory) }
    }

    /// The configuration.
    pub fn build(self) -> (r: Config)
        ensures
            r == self@,
    {
        Config::new(self.environment, self.package_directory)
    }
}

} // verus!
