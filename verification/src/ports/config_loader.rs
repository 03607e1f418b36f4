//! Loading the configuration: its errors, and the interface of a loader.

use vstd::prelude::*;

use crate::domain::config::AppConfig;
use crate::ports::application::ApplicationArguments;
use crate::text::concat2;

verus! {

/// Errors of loading the configuration.
#[derive(Debug)]
pub enum ConfigLoadError {
    ReadError(String),
    ParseError(String),
    NotFound,
    MultipleFound(String),
    ValidationError(String),
    ConfigError(String),
}

/// The message of a loading error.
pub open spec fn config_load_error_text(e: ConfigLoadError) -> Seq<char> {
    match e {
        ConfigLoadError::ReadError(m) => "Failed to read configuration file: "@ + m@,
        ConfigLoadError::ParseError(m) => "Failed to parse configuration file: "@ + m@,
        ConfigLoadError::NotFound => "No configuration file found in standard locations"@,
        ConfigLoadError::MultipleFound(m) => "Multiple configuration files found: "@ + m@,
        ConfigLoadError::ValidationError(m) => "Invalid configuration: "@ + m@,
        ConfigLoadError::ConfigError(m) => m@,
    }
}

impl ConfigLoadError {
    /// The error's message.
    pub fn to_string(&self) -> (r: String)
        ensures
            r@ == config_load_error_text(*self),
    {
        match self {
            ConfigLoadError::ReadError(m) => concat2("Failed to read configuration file: ", m.as_str()),
            ConfigLoadError::ParseError(m) => concat2("Failed to parse configuration file: ", m.as_str()),
            ConfigLoadError::NotFound => String::from_str("No configuration file found in standard locations"),
            ConfigLoadError::MultipleFound(m) => concat2("Multiple configuration files found: ", m.as_str()),
            ConfigLoadError::ValidationError(m) => concat2("Invalid configuration: ", m.as_str()),
            ConfigLoadError::ConfigError(m) => m.clone(),
        }
    }
}

/// Loads the configuration from its standard locations; implemented by the application.
pub trait ConfigLoader {
    /// Load the configuration, with the arguments' overrides.
    fn load_config(&self, app_args: &ApplicationArguments) -> Result<AppConfig, ConfigLoadError>;

    /// The configuration files that exist, in order of preference.
    fn find_config_paths(&self) -> Vec<String>;

    /// The configuration used when none is loaded.
    fn default_config(&self) -> AppConfig;
}

} // verus!
