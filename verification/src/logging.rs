//! Log verbosity levels of the node; wiring them to a subscriber is the
//! shell's business.

use vstd::prelude::*;

verus! {

/// The verbosity a node logs at.
#[derive(Clone, Copy, Debug, PartialEq, Eq, Structural)]
pub enum LogLevel {
    /// Diagnostic detail.
    Debug,
    /// Routine events.
    Info,
    /// Suspicious events.
    Warn,
    /// Failures.
    Error,
    /// Everything, including per-message noise.
    Trace,
}

impl LogLevel {
    /// The level's name.
    pub fn text(&self) -> &'static str {
        match self {
            LogLevel::Debug => "debug",
            LogLevel::Info => "info",
            LogLevel::Warn => "warn",
            LogLevel::Error => "error",
            LogLevel::Trace => "trace",
        }
    }
}

} // verus!
