//! Selfie: a package manager that installs packages described by small
//! YAML package files, in dependency order, for a chosen environment.

pub mod adapters;
pub mod bindings;
pub mod command;
pub mod config;
pub mod digraph;
pub mod filesystem;
pub mod package_graph;
pub mod package_installer;
pub mod package_repo;
pub mod package_validate_command;
pub mod text;
pub mod time;
pub mod domain;
pub mod graph;
pub mod installation;
pub mod package_validator;
pub mod ports;
pub mod progress;
pub mod progress_display;
pub mod styling;
