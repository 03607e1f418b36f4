//! The interfaces between the application and the outside world.

pub mod application;
pub mod config_loader;
pub mod package_repo;
