//! The commands of the application.

use vstd::prelude::*;

verus! {

/// A command of the application.
#[derive(Debug, Clone, PartialEq)]
pub enum ApplicationCommand {
    /// Package management commands
    Package(PackageCommand),
    /// Configuration management commands
    Config(ConfigCommand),
}

impl Default for ApplicationCommand {
    /// Listing the packages.
    fn default() -> (r: Self)
        ensures
            r == ApplicationCommand::Package(PackageCommand::List),
    {
        ApplicationCommand::Package(PackageCommand::List)
    }
}

/// A package management command.
#[derive(Debug, Clone, PartialEq)]
pub enum PackageCommand {
    /// Install a package
    Install { package_name: String },
    /// List available packages
    List,
    /// Show information about a package
    Info { package_name: String },
    /// Create a new package
    Create { package_name: String },
    /// Validate a package, optionally from a given package file
    Validate { package_name: String, package_path: Option<String> },
}

/// A configuration management command.
#[derive(Debug, Clone, PartialEq)]
pub enum ConfigCommand {
    /// Validate the configuration
    Validate,
}

} // verus!
