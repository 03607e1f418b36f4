//! Errors that carry a context: where and why they occurred (a path, a
//! command, an environment, a package, a line, a message).

use vstd::prelude::*;

use crate::text::{concat2, concat3, concat4, decimal, decimal_string, decimal_u64, join, join_strings};

verus! {

/// Where and why an error occurred.
#[derive(Debug, Clone, PartialEq)]
pub struct ErrorContext {
    /// The file or path associated with the error
    pub path: Option<String>,
    /// The command that caused the error
    pub command: Option<String>,
    /// The environment where the error occurred
    pub environment: Option<String>,
    /// The package associated with the error
    pub package: Option<String>,
    /// Line number in a file where the error occurred
    pub line: Option<usize>,
    /// Additional context message
    pub message: Option<String>,
}

/// A labelled part, when the value is there.
pub open spec fn labelled(label: Seq<char>, v: Option<String>) -> Seq<Seq<char>> {
    match v {
        Some(x) => seq![label + x@],
        None => Seq::empty(),
    }
}

/// The parts of a context's text, in order.
pub open spec fn context_parts(c: ErrorContext) -> Seq<Seq<char>> {
    labelled("Path: "@, c.path) + labelled("Command: "@, c.command) + labelled("Environment: "@, c.environment)
        + labelled("Package: "@, c.package) + match c.line {
        Some(l) => seq!["Line: "@ + decimal(l as nat)],
        None => Seq::<Seq<char>>::empty(),
    } + match c.message {
        Some(m) => seq![m@],
        None => Seq::<Seq<char>>::empty(),
    }
}

/// The text of a context: its parts separated by commas.
pub open spec fn context_text(c: ErrorContext) -> Seq<char> {
    join(context_parts(c), ", "@)
}

/// The empty context.
pub open spec fn empty_context() -> ErrorContext {
    ErrorContext { path: None, command: None, environment: None, package: None, line: None, message: None }
}

impl Default for ErrorContext {
    fn default() -> (r: Self)
        ensures
            r == empty_context(),
    {
        ErrorContext { path: None, command: None, environment: None, package: None, line: None, message: None }
    }
}

fn push_labelled(parts: &mut Vec<String>, label: &str, v: &Option<String>)
    ensures
        final(parts)@.map_values(|s: String| s@) == old(parts)@.map_values(|s: String| s@) + labelled(label@, *v),
{
    let ghost before = parts@.map_values(|s: String| s@);
    match v {
        Some(x) => {
            parts.push(concat2(label, x.as_str()));
            assert(parts@.map_values(|s: String| s@) =~= before + labelled(label@, *v));
        },
        None => {
            assert(parts@.map_values(|s: String| s@) =~= before + labelled(label@, *v));
        },
    }
}

impl ErrorContext {
    pub fn with_path(self, path: &str) -> (r: Self)
        ensures
            r == (ErrorContext { path: r.path, ..self }),
            r.path matches Some(p) && p@ == path@,
    {
        ErrorContext { path: Some(String::from_str(path)), ..self }
    }

    pub fn with_command(self, command: &str) -> (r: Self)
        ensures
            r == (ErrorContext { command: r.command, ..self }),
            r.command matches Some(c) && c@ == command@,
    {
        ErrorContext { command: Some(String::from_str(command)), ..self }
    }

    pub fn with_environment(self, environment: &str) -> (r: Self)
        ensures
            r == (ErrorContext { environment: r.environment, ..self }),
            r.environment matches Some(e) && e@ == environment@,
    {
        ErrorContext { environment: Some(String::from_str(environment)), ..self }
    }

    pub fn with_package(self, package: &str) -> (r: Self)
        ensures
            r == (ErrorContext { package: r.package, ..self }),
            r.package matches Some(p) && p@ == package@,
    {
        ErrorContext { package: Some(String::from_str(package)), ..self }
    }

    pub fn with_line(self, line: usize) -> (r: Self)
        ensures
            r == (ErrorContext { line: Some(line), ..self }),
    {
        ErrorContext { line: Some(line), ..self }
    }

    pub fn with_message(self, message: &str) -> (r: Self)
        ensures
            r == (ErrorContext { message: r.message, ..self }),
            r.message matches Some(m) && m@ == message@,
    {
        ErrorContext { message: Some(String::from_str(message)), ..self }
    }

    /// The context as text: the parts present, separated by commas.
    pub fn to_string(&self) -> (r: String)
        ensures
            r@ == context_text(*self),
    {
        let mut parts: Vec<String> = Vec::new();
        assert(parts@.map_values(|s: String| s@) =~= Seq::<Seq<char>>::empty());
        push_labelled(&mut parts, "Path: ", &self.path);
        push_labelled(&mut parts, "Command: ", &self.command);
        push_labelled(&mut parts, "Environment: ", &self.environment);
        push_labelled(&mut parts, "Package: ", &self.package);
        let ghost before = parts@.map_values(|s: String| s@);
        match self.line {
            Some(l) => {
                let d = decimal_string(l);
                parts.push(concat2("Line: ", d.as_str()));
            },
            None => {},
        }
        let ghost mid = parts@.map_values(|s: String| s@);
        assert(mid =~= before + match self.line {
            Some(l) => seq!["Line: "@ + decimal(l as nat)],
            None => Seq::<Seq<char>>::empty(),
        });
        match &self.message {
            Some(m) => {
                parts.push(m.clone());
            },
            None => {},
        }
        assert(parts@.map_values(|s: String| s@) =~= context_parts(*self));
        join_strings(&parts, ", ")
    }
}

/// A file system error with its context.
#[derive(Debug)]
pub enum EnhancedFileSystemError {
    PathNotFound { path: String, context: ErrorContext },
    PermissionDenied { path: String, context: ErrorContext },
    IoError { message: String, context: ErrorContext },
    InvalidPath { path: String, context: ErrorContext },
}

impl EnhancedFileSystemError {
    /// A path that was not found.
    pub fn path_not_found(path: &str) -> (r: Self)
        ensures
            r matches EnhancedFileSystemError::PathNotFound { path: p, context } && p@ == path@ && context == empty_context(),
    {
        EnhancedFileSystemError::PathNotFound { path: String::from_str(path), context: ErrorContext::default() }
    }

    /// A path that may not be accessed.
    pub fn permission_denied(path: &str) -> (r: Self)
        ensures
            r matches EnhancedFileSystemError::PermissionDenied { path: p, context } && p@ == path@ && context == empty_context(),
    {
        EnhancedFileSystemError::PermissionDenied { path: String::from_str(path), context: ErrorContext::default() }
    }

    /// An input/output error, by its message.
    pub fn io_error(message: &str) -> (r: Self)
        ensures
            r matches EnhancedFileSystemError::IoError { message: m, context } && m@ == message@ && context == empty_context(),
    {
        EnhancedFileSystemError::IoError { message: String::from_str(message), context: ErrorContext::default() }
    }

    /// A path that is not valid.
    pub fn invalid_path(path: &str) -> (r: Self)
        ensures
            r matches EnhancedFileSystemError::InvalidPath { path: p, context } && p@ == path@ && context == empty_context(),
    {
        EnhancedFileSystemError::InvalidPath { path: String::from_str(path), context: ErrorContext::default() }
    }

    /// The same error with the given context.
    pub fn with_context(self, context: ErrorContext) -> (r: Self)
        ensures
            r == fs_error_with_context(self, context),
    {
        match self {
            EnhancedFileSystemError::PathNotFound { path, .. } => EnhancedFileSystemError::PathNotFound { path, context },
            EnhancedFileSystemError::PermissionDenied { path, .. } => EnhancedFileSystemError::PermissionDenied { path, context },
            EnhancedFileSystemError::IoError { message, .. } => EnhancedFileSystemError::IoError { message, context },
            EnhancedFileSystemError::InvalidPath { path, .. } => EnhancedFileSystemError::InvalidPath { path, context },
        }
    }

    /// The error's context.
    pub fn context(&self) -> (r: &ErrorContext)
        ensures
            *r == fs_error_context(*self),
    {
        match self {
            EnhancedFileSystemError::PathNotFound { context, .. } => context,
            EnhancedFileSystemError::PermissionDenied { context, .. } => context,
            EnhancedFileSystemError::IoError { context, .. } => context,
            EnhancedFileSystemError::InvalidPath { context, .. } => context,
        }
    }

    /// The error's message.
    pub fn to_string(&self) -> (r: String)
        ensures
            r@ == match self {
                EnhancedFileSystemError::PathNotFound { path, .. } => "Path not found: "@ + path@,
                EnhancedFileSystemError::PermissionDenied { path, .. } => "Permission denied: "@ + path@,
                EnhancedFileSystemError::IoError { message, .. } => "IO error: "@ + message@,
                EnhancedFileSystemError::InvalidPath { path, .. } => "Invalid path: "@ + path@,
            },
    {
        match self {
            EnhancedFileSystemError::PathNotFound { path, .. } => concat2("Path not found: ", path.as_str()),
            EnhancedFileSystemError::PermissionDenied { path, .. } => concat2("Permission denied: ", path.as_str()),
            EnhancedFileSystemError::IoError { message, .. } => concat2("IO error: ", message.as_str()),
            EnhancedFileSystemError::InvalidPath { path, .. } => concat2("Invalid path: ", path.as_str()),
        }
    }
}

/// A package error with its context.
#[derive(Debug)]
pub enum EnhancedPackageError {
    PackageNotFound { name: String, context: ErrorContext },
    MultiplePackagesFound { name: String, context: ErrorContext },
    ValidationError { message: String, context: ErrorContext },
    ParseError { message: String, context: ErrorContext },
    EnvironmentNotSupported { environment: String, package: String, context: ErrorContext },
}

impl EnhancedPackageError {
    pub fn package_not_found(name: &str) -> (r: Self)
        ensures
            r matches EnhancedPackageError::PackageNotFound { name: n, context } && n@ == name@ && context == empty_context(),
    {
        EnhancedPackageError::PackageNotFound { name: String::from_str(name), context: ErrorContext::default() }
    }

    pub fn multiple_packages_found(name: &str) -> (r: Self)
        ensures
            r matches EnhancedPackageError::MultiplePackagesFound { name: n, context } && n@ == name@ && context == empty_context(),
    {
        EnhancedPackageError::MultiplePackagesFound { name: String::from_str(name), context: ErrorContext::default() }
    }

    pub fn validation_error(message: &str) -> (r: Self)
        ensures
            r matches EnhancedPackageError::ValidationError { message: m, context } && m@ == message@ && context == empty_context(),
    {
        EnhancedPackageError::ValidationError { message: String::from_str(message), context: ErrorContext::default() }
    }

    pub fn parse_error(message: &str) -> (r: Self)
        ensures
            r matches EnhancedPackageError::ParseError { message: m, context } && m@ == message@ && context == empty_context(),
    {
        EnhancedPackageError::ParseError { message: String::from_str(message), context: ErrorContext::default() }
    }

    pub fn environment_not_supported(environment: &str, package: &str) -> (r: Self)
        ensures
            r matches EnhancedPackageError::EnvironmentNotSupported { environment: e, package: p, context }
                && e@ == environment@ && p@ == package@ && context == empty_context(),
    {
        EnhancedPackageError::EnvironmentNotSupported {
            environment: String::from_str(environment),
            package: String::from_str(package),
            context: ErrorContext::default(),
        }
    }

    /// The same error with the given context.
    pub fn with_context(self, context: ErrorContext) -> (r: Self)
        ensures
            r == package_error_with_context(self, context),
    {
        match self {
            EnhancedPackageError::PackageNotFound { name, .. } => EnhancedPackageError::PackageNotFound { name, context },
            EnhancedPackageError::MultiplePackagesFound { name, .. } => EnhancedPackageError::MultiplePackagesFound { name, context },
            EnhancedPackageError::ValidationError { message, .. } => EnhancedPackageError::ValidationError { message, context },
            EnhancedPackageError::ParseError { message, .. } => EnhancedPackageError::ParseError { message, context },
            EnhancedPackageError::EnvironmentNotSupported { environment, package, .. } =>
                EnhancedPackageError::EnvironmentNotSupported { environment, package, context },
        }
    }

    /// The error's context.
    pub fn context(&self) -> (r: &ErrorContext)
        ensures
            *r == package_error_context(*self),
    {
        match self {
            EnhancedPackageError::PackageNotFound { context, .. } => context,
            EnhancedPackageError::MultiplePackagesFound { context, .. } => context,
            EnhancedPackageError::ValidationError { context, .. } => context,
            EnhancedPackageError::ParseError { context, .. } => context,
            EnhancedPackageError::EnvironmentNotSupported { context, .. } => context,
        }
    }

    /// The error's message.
    pub fn to_string(&self) -> (r: String)
        ensures
            r@ == match self {
                EnhancedPackageError::PackageNotFound { name, .. } => "Package not found: "@ + name@,
                EnhancedPackageError::MultiplePackagesFound { name, .. } => "Multiple packages found with name: "@ + name@,
                EnhancedPackageError::ValidationError { message, .. } => "Package validation error: "@ + message@,
                EnhancedPackageError::ParseError { message, .. } => "Package parse error: "@ + message@,
                EnhancedPackageError::EnvironmentNotSupported { environment, package, .. } =>
                    "Environment not supported: "@ + environment@ + " for package "@ + package@,
            },
    {
        match self {
            EnhancedPackageError::PackageNotFound { name, .. } => concat2("Package not found: ", name.as_str()),
            EnhancedPackageError::MultiplePackagesFound { name, .. } => concat2("Multiple packages found with name: ", name.as_str()),
            EnhancedPackageError::ValidationError { message, .. } => concat2("Package validation error: ", message.as_str()),
            EnhancedPackageError::ParseError { message, .. } => concat2("Package parse error: ", message.as_str()),
            EnhancedPackageError::EnvironmentNotSupported { environment, package, .. } =>
                concat4("Environment not supported: ", environment.as_str(), " for package ", package.as_str()),
        }
    }
}

/// A command error with its context.
#[derive(Debug)]
pub enum EnhancedCommandError {
    ExecutionFailed { command: String, exit_code: i32, stdout: String, stderr: String, context: ErrorContext },
    /// The timeout is in seconds
    Timeout { command: String, timeout: u64, context: ErrorContext },
    Interrupted { command: String, context: ErrorContext },
    PermissionDenied { command: String, context: ErrorContext },
    CommandNotFound { command: String, context: ErrorContext },
}

impl EnhancedCommandError {
    pub fn execution_failed(command: &str, exit_code: i32, stdout: &str, stderr: &str) -> (r: Self)
        ensures
            r matches EnhancedCommandError::ExecutionFailed { command: c, exit_code: x, stdout: o, stderr: e, context }
                && c@ == command@ && x == exit_code && o@ == stdout@ && e@ == stderr@ && context == empty_context(),
    {
        EnhancedCommandError::ExecutionFailed {
            command: String::from_str(command),
            exit_code,
            stdout: String::from_str(stdout),
            stderr: String::from_str(stderr),
            context: ErrorContext::default(),
        }
    }

    /// A command that ran longer than `timeout` seconds.
    pub fn timeout(command: &str, timeout: u64) -> (r: Self)
        ensures
            r matches EnhancedCommandError::Timeout { command: c, timeout: t, context } && c@ == command@ && t == timeout
                && context == empty_context(),
    {
        EnhancedCommandError::Timeout { command: String::from_str(command), timeout, context: ErrorContext::default() }
    }

    pub fn interrupted(command: &str) -> (r: Self)
        ensures
            r matches EnhancedCommandError::Interrupted { command: c, context } && c@ == command@ && context == empty_context(),
    {
        EnhancedCommandError::Interrupted { command: String::from_str(command), context: ErrorContext::default() }
    }

    pub fn permission_denied(command: &str) -> (r: Self)
        ensures
            r matches EnhancedCommandError::PermissionDenied { command: c, context } && c@ == command@ && context == empty_context(),
    {
        EnhancedCommandError::PermissionDenied { command: String::from_str(command), context: ErrorContext::default() }
    }

    pub fn command_not_found(command: &str) -> (r: Self)
        ensures
            r matches EnhancedCommandError::CommandNotFound { command: c, context } && c@ == command@ && context == empty_context(),
    {
        EnhancedCommandError::CommandNotFound { command: String::from_str(command), context: ErrorContext::default() }
    }

    /// The same error with the given context.
    pub fn with_context(self, context: ErrorContext) -> (r: Self)
        ensures
            r == command_error_with_context(self, context),
    {
        match self {
            EnhancedCommandError::ExecutionFailed { command, exit_code, stdout, stderr, .. } =>
                EnhancedCommandError::ExecutionFailed { command, exit_code, stdout, stderr, context },
            EnhancedCommandError::Timeout { command, timeout, .. } => EnhancedCommandError::Timeout { command, timeout, context },
            EnhancedCommandError::Interrupted { command, .. } => EnhancedCommandError::Interrupted { command, context },
            EnhancedCommandError::PermissionDenied { command, .. } => EnhancedCommandError::PermissionDenied { command, context },
            EnhancedCommandError::CommandNotFound { command, .. } => EnhancedCommandError::CommandNotFound { command, context },
        }
    }

    /// The error's context.
    pub fn context(&self) -> (r: &ErrorContext)
        ensures
            *r == command_error_context(*self),
    {
        match self {
            EnhancedCommandError::ExecutionFailed { context, .. } => context,
            EnhancedCommandError::Timeout { context, .. } => context,
            EnhancedCommandError::Interrupted { context, .. } => context,
            EnhancedCommandError::PermissionDenied { context, .. } => context,
            EnhancedCommandError::CommandNotFound { context, .. } => context,
        }
    }

    /// The error's message.
    pub fn to_string(&self) -> (r: String)
        ensures
            r@ == match self {
                EnhancedCommandError::ExecutionFailed { command, .. } => "Command execution failed: "@ + command@,
                EnhancedCommandError::Timeout { command, timeout, .. } =>
                    "Command timed out after "@ + decimal(*timeout as nat) + " seconds: "@ + command@,
                EnhancedCommandError::Interrupted { command, .. } => "Command interrupted: "@ + command@,
                EnhancedCommandError::PermissionDenied { command, .. } => "Permission denied: "@ + command@,
                EnhancedCommandError::CommandNotFound { command, .. } => "Command not found: "@ + command@,
            },
    {
        match self {
            EnhancedCommandError::ExecutionFailed { command, .. } => concat2("Command execution failed: ", command.as_str()),
            EnhancedCommandError::Timeout { command, timeout, .. } => {
                let t = decimal_u64(*timeout);
                concat4("Command timed out after ", t.as_str(), " seconds: ", command.as_str())
            },
            EnhancedCommandError::Interrupted { command, .. } => concat2("Command interrupted: ", command.as_str()),
            EnhancedCommandError::PermissionDenied { command, .. } => concat2("Permission denied: ", command.as_str()),
            EnhancedCommandError::CommandNotFound { command, .. } => concat2("Command not found: ", command.as_str()),
        }
    }
}

/// A dependency error with its context.
#[derive(Debug)]
pub enum EnhancedDependencyError {
    CircularDependency { cycle: String, path: Vec<String>, context: ErrorContext },
    MissingDependency { name: String, context: ErrorContext },
    EnvironmentMismatch { dependency: String, package: String, environment: String, context: ErrorContext },
}

impl EnhancedDependencyError {
    /// A dependency cycle, given the packages along it; the cycle's text
    /// joins them with arrows.
    pub fn circular_dependency(path: Vec<String>) -> (r: Self)
        ensures
            r matches EnhancedDependencyError::CircularDependency { cycle, path: p, context }
                && cycle@ == join(path@.map_values(|s: String| s@), " → "@) && p == path && context == empty_context(),
    {
        let cycle = join_strings(&path, " → ");
        EnhancedDependencyError::CircularDependency { cycle, path, context: ErrorContext::default() }
    }

    pub fn missing_dependency(name: &str) -> (r: Self)
        ensures
            r matches EnhancedDependencyError::MissingDependency { name: n, context } && n@ == name@ && context == empty_context(),
    {
        EnhancedDependencyError::MissingDependency { name: String::from_str(name), context: ErrorContext::default() }
    }

    pub fn environment_mismatch(dependency: &str, package: &str, environment: &str) -> (r: Self)
        ensures
            r matches EnhancedDependencyError::EnvironmentMismatch { dependency: d, package: p, environment: e, context }
                && d@ == dependency@ && p@ == package@ && e@ == environment@ && context == empty_context(),
    {
        EnhancedDependencyError::EnvironmentMismatch {
            dependency: String::from_str(dependency),
            package: String::from_str(package),
            environment: String::from_str(environment),
            context: ErrorContext::default(),
        }
    }

    /// The same error with the given context.
    pub fn with_context(self, context: ErrorContext) -> (r: Self)
        ensures
            r == dependency_error_with_context(self, context),
    {
        match self {
            EnhancedDependencyError::CircularDependency { cycle, path, .. } =>
                EnhancedDependencyError::CircularDependency { cycle, path, context },
            EnhancedDependencyError::MissingDependency { name, .. } => EnhancedDependencyError::MissingDependency { name, context },
            EnhancedDependencyError::EnvironmentMismatch { dependency, package, environment, .. } =>
                EnhancedDependencyError::EnvironmentMismatch { dependency, package, environment, context },
        }
    }

    /// The error's context.
    pub fn context(&self) -> (r: &ErrorContext)
        ensures
            *r == dependency_error_context(*self),
    {
        match self {
            EnhancedDependencyError::CircularDependency { context, .. } => context,
            EnhancedDependencyError::MissingDependency { context, .. } => context,
            EnhancedDependencyError::EnvironmentMismatch { context, .. } => context,
        }
    }

    /// The packages along the cycle, for a circular dependency.
    pub fn cycle_path(&self) -> (r: Option<&Vec<String>>)
        ensures
            r == match *self {
                EnhancedDependencyError::CircularDependency { path, .. } => Some(&path),
                _ => None::<&Vec<String>>,
            },
    {
        match self {
            EnhancedDependencyError::CircularDependency { path, .. } => Some(path),
            _ => None,
        }
    }

    /// The error's message.
    pub fn to_string(&self) -> (r: String)
        ensures
            r@ == match self {
                EnhancedDependencyError::CircularDependency { cycle, .. } => "Circular dependency detected: "@ + cycle@,
                EnhancedDependencyError::MissingDependency { name, .. } => "Missing dependency: "@ + name@,
                EnhancedDependencyError::EnvironmentMismatch { dependency, package, .. } =>
                    "Dependency environment mismatch: "@ + dependency@ + " for "@ + package@,
            },
    {
        match self {
            EnhancedDependencyError::CircularDependency { cycle, .. } => concat2("Circular dependency detected: ", cycle.as_str()),
            EnhancedDependencyError::MissingDependency { name, .. } => concat2("Missing dependency: ", name.as_str()),
            EnhancedDependencyError::EnvironmentMismatch { dependency, package, .. } =>
                concat4("Dependency environment mismatch: ", dependency.as_str(), " for ", package.as_str()),
        }
    }
}

/// The file system error with its context replaced.
pub open spec fn fs_error_with_context(e: EnhancedFileSystemError, context: ErrorContext) -> EnhancedFileSystemError {
    match e {
        EnhancedFileSystemError::PathNotFound { path, .. } => EnhancedFileSystemError::PathNotFound { path, context },
        EnhancedFileSystemError::PermissionDenied { path, .. } => EnhancedFileSystemError::PermissionDenied { path, context },
        EnhancedFileSystemError::IoError { message, .. } => EnhancedFileSystemError::IoError { message, context },
        EnhancedFileSystemError::InvalidPath { path, .. } => EnhancedFileSystemError::InvalidPath { path, context },
    }
}

/// The package error with its context replaced.
pub open spec fn package_error_with_context(e: EnhancedPackageError, context: ErrorContext) -> EnhancedPackageError {
    match e {
        EnhancedPackageError::PackageNotFound { name, .. } => EnhancedPackageError::PackageNotFound { name, context },
        EnhancedPackageError::MultiplePackagesFound { name, .. } => EnhancedPackageError::MultiplePackagesFound { name, context },
        EnhancedPackageError::ValidationError { message, .. } => EnhancedPackageError::ValidationError { message, context },
        EnhancedPackageError::ParseError { message, .. } => EnhancedPackageError::ParseError { message, context },
        EnhancedPackageError::EnvironmentNotSupported { environment, package, .. } =>
            EnhancedPackageError::EnvironmentNotSupported { environment, package, context },
    }
}

/// The command error with its context replaced.
pub open spec fn command_error_with_context(e: EnhancedCommandError, context: ErrorContext) -> EnhancedCommandError {
    match e {
        EnhancedCommandError::ExecutionFailed { command, exit_code, stdout, stderr, .. } =>
            EnhancedCommandError::ExecutionFailed { command, exit_code, stdout, stderr, context },
        EnhancedCommandError::Timeout { command, timeout, .. } => EnhancedCommandError::Timeout { command, timeout, context },
        EnhancedCommandError::Interrupted { command, .. } => EnhancedCommandError::Interrupted { command, context },
        EnhancedCommandError::PermissionDenied { command, .. } => EnhancedCommandError::PermissionDenied { command, context },
        EnhancedCommandError::CommandNotFound { command, .. } => EnhancedCommandError::CommandNotFound { command, context },
    }
}

/// The dependency error with its context replaced.
pub open spec fn dependency_error_with_context(e: EnhancedDependencyError, context: ErrorContext) -> EnhancedDependencyError {
    match e {
        EnhancedDependencyError::CircularDependency { cycle, path, .. } =>
            EnhancedDependencyError::CircularDependency { cycle, path, context },
        EnhancedDependencyError::MissingDependency { name, .. } => EnhancedDependencyError::MissingDependency { name, context },
        EnhancedDependencyError::EnvironmentMismatch { dependency, package, environment, .. } =>
            EnhancedDependencyError::EnvironmentMismatch { dependency, package, environment, context },
    }
}

/// The context of the file system error.
pub open spec fn fs_error_context(e: EnhancedFileSystemError) -> ErrorContext {
    match e {
        EnhancedFileSystemError::PathNotFound { context, .. } => context,
        EnhancedFileSystemError::PermissionDenied { context, .. } => context,
        EnhancedFileSystemError::IoError { context, .. } => context,
        EnhancedFileSystemError::InvalidPath { context, .. } => context,
    }
}

/// Giving a file system error a context: the error then has that context,
/// giving it the context it has changes nothing, and of two contexts given
/// one after the other only the last counts.
pub proof fn law_fs_error_context(e: EnhancedFileSystemError, c1: ErrorContext, c2: ErrorContext)
    ensures
        fs_error_context(fs_error_with_context(e, c1)) == c1,
        fs_error_with_context(e, fs_error_context(e)) == e,
        fs_error_with_context(fs_error_with_context(e, c1), c2) == fs_error_with_context(e, c2),
{
}

/// The context of the package error.
pub open spec fn package_error_context(e: EnhancedPackageError) -> ErrorContext {
    match e {
        EnhancedPackageError::PackageNotFound { context, .. } => context,
        EnhancedPackageError::MultiplePackagesFound { context, .. } => context,
        EnhancedPackageError::ValidationError { context, .. } => context,
        EnhancedPackageError::ParseError { context, .. } => context,
        EnhancedPackageError::EnvironmentNotSupported { context, .. } => context,
    }
}

/// Giving a package error a context: the error then has that context,
/// giving it the context it has changes nothing, and of two contexts given
/// one after the other only the last counts.
pub proof fn law_package_error_context(e: EnhancedPackageError, c1: ErrorContext, c2: ErrorContext)
    ensures
        package_error_context(package_error_with_context(e, c1)) == c1,
        package_error_with_context(e, package_error_context(e)) == e,
        package_error_with_context(package_error_with_context(e, c1), c2) == package_error_with_context(e, c2),
{
}

/// The context of the command error.
pub open spec fn command_error_context(e: EnhancedCommandError) -> ErrorContext {
    match e {
        EnhancedCommandError::ExecutionFailed { context, .. } => context,
        EnhancedCommandError::Timeout { context, .. } => context,
        EnhancedCommandError::Interrupted { context, .. } => context,
        EnhancedCommandError::PermissionDenied { context, .. } => context,
        EnhancedCommandError::CommandNotFound { context, .. } => context,
    }
}

/// Giving a command error a context: the error then has that context,
/// giving it the context it has changes nothing, and of two contexts given
/// one after the other only the last counts.
pub proof fn law_command_error_context(e: EnhancedCommandError, c1: ErrorContext, c2: ErrorContext)
    ensures
        command_error_context(command_error_with_context(e, c1)) == c1,
        command_error_with_context(e, command_error_context(e)) == e,
        command_error_with_context(command_error_with_context(e, c1), c2) == command_error_with_context(e, c2),
{
}

/// The context of the dependency error.
pub open spec fn dependency_error_context(e: EnhancedDependencyError) -> ErrorContext {
    match e {
        EnhancedDependencyError::CircularDependency { context, .. } => context,
        EnhancedDependencyError::MissingDependency { context, .. } => context,
        EnhancedDependencyError::EnvironmentMismatch { context, .. } => context,
    }
}

/// Giving a dependency error a context: the error then has that context,
/// giving it the context it has changes nothing, and of two contexts given
/// one after the other only the last counts.
pub proof fn law_dependency_error_context(e: EnhancedDependencyError, c1: ErrorContext, c2: ErrorContext)
    ensures
        dependency_error_context(dependency_error_with_context(e, c1)) == c1,
        dependency_error_with_context(e, dependency_error_context(e)) == e,
        dependency_error_with_context(dependency_error_with_context(e, c1), c2) == dependency_error_with_context(e, c2),
{
}

/// Adding context to the error of a result.
pub trait WithContext<T>: Sized {
    /// The result with the context from `f` added to its error; an `Ok` is unchanged.
    fn with_context<F: FnOnce() -> ErrorContext>(self, f: F) -> T
        requires
            f.requires(()),
    ;
}

impl<T> WithContext<Result<T, EnhancedFileSystemError>> for Result<T, EnhancedFileSystemError> {
    fn with_context<F: FnOnce() -> ErrorContext>(self, f: F) -> (r: Result<T, EnhancedFileSystemError>)
        ensures
            self matches Ok(v) ==> r == Ok::<T, EnhancedFileSystemError>(v),
            self matches Err(e) ==> exists|c: ErrorContext| f.ensures((), c) && r == Err::<T, EnhancedFileSystemError>(fs_error_with_context(e, c)),
    {
        match self {
            Ok(v) => Ok(v),
            Err(e) => {
                let c = f();
                Err(e.with_context(c))
            },
        }
    }
}

impl<T> WithContext<Result<T, EnhancedPackageError>> for Result<T, EnhancedPackageError> {
    fn with_context<F: FnOnce() -> ErrorContext>(self, f: F) -> (r: Result<T, EnhancedPackageError>)
        ensures
            self matches Ok(v) ==> r == Ok::<T, EnhancedPackageError>(v),
            self matches Err(e) ==> exists|c: ErrorContext| f.ensures((), c) && r == Err::<T, EnhancedPackageError>(package_error_with_context(e, c)),
    {
        match self {
            Ok(v) => Ok(v),
            Err(e) => {
                let c = f();
                Err(e.with_context(c))
            },
        }
    }
}

impl<T> WithContext<Result<T, EnhancedCommandError>> for Result<T, EnhancedCommandError> {
    fn with_context<F: FnOnce() -> ErrorContext>(self, f: F) -> (r: Result<T, EnhancedCommandError>)
        ensures
            self matches Ok(v) ==> r == Ok::<T, EnhancedCommandError>(v),
            self matches Err(e) ==> exists|c: ErrorContext| f.ensures((), c) && r == Err::<T, EnhancedCommandError>(command_error_with_context(e, c)),
    {
        match self {
            Ok(v) => Ok(v),
            Err(e) => {
                let c = f();
                Err(e.with_context(c))
            },
        }
    }
}

impl<T> WithContext<Result<T, EnhancedDependencyError>> for Result<T, EnhancedDependencyError> {
    fn with_context<F: FnOnce() -> ErrorContext>(self, f: F) -> (r: Result<T, EnhancedDependencyError>)
        ensures
            self matches Ok(v) ==> r == Ok::<T, EnhancedDependencyError>(v),
            self matches Err(e) ==> exists|c: ErrorContext| f.ensures((), c) && r == Err::<T, EnhancedDependencyError>(dependency_error_with_context(e, c)),
    {
        match self {
            Ok(v) => Ok(v),
            Err(e) => {
                let c = f();
                Err(e.with_context(c))
            },
        }
    }
}

} // verus!
