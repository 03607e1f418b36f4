//! The command line as the argument parser sees it, and its conversion into
//! the application's arguments.

use vstd::prelude::*;

use crate::domain::application::commands::{ApplicationCommand, ConfigCommand, PackageCommand};
use crate::ports::application::ApplicationArguments;
use crate::text::concat2;

verus! {

/// Errors of the command line.
#[derive(Debug)]
pub enum CliError {
    InvalidArguments(String),
    /// A configuration error, by its message
    ConfigError(String),
}

impl CliError {
    /// The error's message.
    pub fn to_string(&self) -> (r: String)
        ensures
            r@ == match self {
                CliError::InvalidArguments(m) => "Invalid command line arguments: "@ + m@,
                CliError::ConfigError(m) => "Configuration error: "@ + m@,
            },
    {
        match self {
            CliError::InvalidArguments(m) => concat2("Invalid command line arguments: ", m.as_str()),
            CliError::ConfigError(m) => concat2("Configuration error: ", m.as_str()),
        }
    }
}

/// The parsed command line.
#[derive(Debug)]
pub struct ClapArguments {
    /// Override the environment from config
    pub environment: Option<String>,
    /// Override the package directory from config
    pub package_directory: Option<String>,
    /// Show detailed output
    pub verbose: bool,
    /// Disable colored output
    pub no_color: bool,
    /// Subcommand to execute
    pub command: ClapCommands,
}

/// The subcommands.
#[derive(Debug, Clone)]
pub enum ClapCommands {
    Package(PackageCommands),
    Config(ConfigCommands),
}

/// The package subcommand group.
#[derive(Debug, Clone)]
pub struct PackageCommands {
    pub command: PackageSubcommands,
}

/// The package subcommands.
#[derive(Debug, Clone)]
pub enum PackageSubcommands {
    Install { package_name: String },
    List,
    Info { package_name: String },
    Create { package_name: String },
    Validate { package_name: String, package_path: Option<String> },
}

/// The configuration subcommand group.
#[derive(Debug, Clone)]
pub struct ConfigCommands {
    pub command: ConfigSubcommands,
}

/// The configuration subcommands.
#[derive(Debug, Clone)]
pub enum ConfigSubcommands {
    Validate,
}

/// The package command a package subcommand stands for.
pub open spec fn package_command_of(s: PackageSubcommands) -> PackageCommand {
    match s {
        PackageSubcommands::Install { package_name } => PackageCommand::Install { package_name },
        PackageSubcommands::List => PackageCommand::List,
        PackageSubcommands::Info { package_name } => PackageCommand::Info { package_name },
        PackageSubcommands::Create { package_name } => PackageCommand::Create { package_name },
        PackageSubcommands::Validate { package_name, package_path } => PackageCommand::Validate { package_name, package_path },
    }
}

/// The application command a subcommand stands for.
pub open spec fn application_command_of(c: ClapCommands) -> ApplicationCommand {
    match c {
        ClapCommands::Package(p) => ApplicationCommand::Package(package_command_of(p.command)),
        ClapCommands::Config(c) => ApplicationCommand::Config(
            match c.command {
                ConfigSubcommands::Validate => ConfigCommand::Validate,
            },
        ),
    }
}

impl PackageCommand {
    /// The package command a package subcommand stands for.
    pub fn from_subcommand(value: PackageSubcommands) -> (r: Self)
        ensures
            r == package_command_of(value),
    {
        match value {
            PackageSubcommands::Install { package_name } => PackageCommand::Install { package_name },
            PackageSubcommands::List => PackageCommand::List,
            PackageSubcommands::Info { package_name } => PackageCommand::Info { package_name },
            PackageSubcommands::Create { package_name } => PackageCommand::Create { package_name },
            PackageSubcommands::Validate { package_name, package_path } => PackageCommand::Validate { package_name, package_path },
        }
    }
}

impl ConfigCommand {
    /// The configuration command a configuration subcommand stands for.
    pub fn from_subcommand(value: ConfigSubcommands) -> (r: Self)
        ensures
            r == ConfigCommand::Validate,
    {
        match value {
            ConfigSubcommands::Validate => ConfigCommand::Validate,
        }
    }
}

impl ApplicationCommand {
    /// The application command a subcommand stands for.
    pub fn from_clap(value: ClapCommands) -> (r: Self)
        ensures
            r == application_command_of(value),
    {
        match value {
            ClapCommands::Package(p) => ApplicationCommand::Package(PackageCommand::from_subcommand(p.command)),
            ClapCommands::Config(c) => ApplicationCommand::Config(ConfigCommand::from_subcommand(c.command)),
        }
    }
}

impl ApplicationArguments {
    /// The application's arguments from the parsed command line.
    pub fn from_clap(value: ClapArguments) -> (r: Self)
        ensures
            r.environment == value.environment,
            r.package_directory == value.package_directory,
            r.verbose == value.verbose,
            r.no_color == value.no_color,
            r.command == application_command_of(value.command),
    {
        ApplicationArguments {
            environment: value.environment,
            package_directory: value.package_directory,
            verbose: value.verbose,
            no_color: value.no_color,
            command: ApplicationCommand::from_clap(value.command),
        }
    }
}

} // verus!
