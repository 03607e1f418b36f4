//! Adapters between outside libraries and the application.

pub mod clap_adapter;
pub mod config_loader;
pub mod output_buffer;
pub mod progress;
