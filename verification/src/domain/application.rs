//! What the user asked the application to do.

pub mod commands;
