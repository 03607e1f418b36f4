//! Logging settings as a configuration file gives them.

use vstd::prelude::*;

verus! {

/// Logging settings of a configuration file.
#[derive(Debug, Clone, PartialEq)]
pub struct LogConfig {
    pub enabled: bool,
    pub directory: String,
    pub max_files: usize,
    pub max_size: usize,
}

} // verus!
