//! The arguments the application was started with, and the interfaces of
//! what reads them and what runs the command they name.

use vstd::prelude::*;

use crate::domain::application::commands::ApplicationCommand;

verus! {

/// The application's arguments: overrides of the configuration, display
/// settings, and the command to run.
#[derive(Debug, Clone, PartialEq, Default)]
pub struct ApplicationArguments {
    pub environment: Option<String>,
    pub package_directory: Option<String>,
    pub verbose: bool,
    pub no_color: bool,
    pub command: ApplicationCommand,
}

#[verifier::external_type_specification]
#[verifier::external_body]
pub struct ExAnyhowError(anyhow::Error);

/// Reads the application's arguments; implemented by the command line.
pub trait ArgumentParser {
    /// Parse the arguments into the application's terms.
    fn parse_arguments() -> Result<ApplicationArguments, anyhow::Error>;
}

/// Runs the command the arguments name; implemented by the application.
pub trait ApplicationCommandRouter {
    /// Process the command and give the exit code.
    fn process_command(&self, args: ApplicationArguments) -> Result<i32, anyhow::Error>;

    /// A description of a command for people.
    fn get_command_description(&self, command: &ApplicationCommand) -> String;
}

} // verus!
