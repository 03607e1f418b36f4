//! The domain model: packages, their validation, dependency graphs,
//! installations, configuration and errors.

pub mod application;
pub mod config;
pub mod dependency;
pub mod errors;
pub mod installation;
pub mod package;
pub mod report;
pub mod validation;
