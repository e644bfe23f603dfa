//! Process configuration: plain data. Reading it from the environment is
//! an I/O concern and happens outside the library; the values arrive
//! here already parsed.

use vstd::prelude::*;
use crate::repository::StorageSettings;

verus! {

/// What the process needs to start: a log level, a port to listen on,
/// and which backend to bind.
#[derive(Debug, Clone)]
pub struct Settings {
    pub log_level: String,
    pub port: u16,
    pub storage: StorageSettings,
}

} // verus!
