//! The error taxonomy of the harness. Every failure that crosses the
//! host-call boundary is one of these structured values; no native fault
//! is ever allowed to propagate to a running script.

use vstd::prelude::*;

verus! {

/// A structured, inspectable failure value.
#[derive(Debug)]
pub enum HarnessError {
    /// Missing or malformed project/chain settings, an unreadable contract
    /// source, or an invalid account field.
    ConfigError(String),
    /// A host call named a session id that the registry does not know.
    SessionNotFound(u32),
    /// A host call carried malformed arguments.
    ArgumentError(String),
    /// The chain simulator failed internally during a call.
    SimulatorError(String),
    /// An uncaught exception inside test code, carrying a source-mapped
    /// rendering of the failure.
    ScriptError(String),
}

impl HarnessError {
    /// The class name under which this error is surfaced to script code.
    pub open spec fn class_name_spec(&self) -> Seq<char> {
        match self {
            HarnessError::ConfigError(_) => "ConfigError"@,
            HarnessError::SessionNotFound(_) => "SessionNotFound"@,
            HarnessError::ArgumentError(_) => "ArgumentError"@,
            HarnessError::SimulatorError(_) => "SimulatorError"@,
            HarnessError::ScriptError(_) => "ScriptError"@,
        }
    }

    /// Translates the error for the engine boundary: the name a calling
    /// script can match on.
    pub fn class_name(&self) -> (s: &'static str)
        ensures
            s@ == self.class_name_spec(),
    {
        match self {
            HarnessError::ConfigError(_) => "ConfigError",
            HarnessError::SessionNotFound(_) => "SessionNotFound",
            HarnessError::ArgumentError(_) => "ArgumentError",
            HarnessError::SimulatorError(_) => "SimulatorError",
            HarnessError::ScriptError(_) => "ScriptError",
        }
    }
}

} // verus!
