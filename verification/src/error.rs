//! The one error type that every operation reports its failures in.

use vstd::prelude::*;
use vstd::string::*;

verus! {

/// Why an operation gave no result.
#[derive(Debug, Clone, PartialEq, Eq)]
pub enum Error {
    /// The host has no spooler scripting shell. Nothing was run.
    PlatformUnsupported,
    /// The print helper could not be written to disk.
    StageFailure(String),
    /// The operating system could not start the command.
    ProcessLaunchFailure(String),
    /// A temporary file could not be written or removed.
    TempFileFailure(String),
}

/// The fixed text that stands for a host without a spooler scripting shell.
pub open spec fn unsupported_text() -> Seq<char> {
    "Unsupported OS"@
}

impl Error {
    /// The text that the error shows to a caller: the fixed sentinel for an
    /// unsupported host, otherwise the message of the failure underneath.
    pub open spec fn text(&self) -> Seq<char> {
        match self {
            Error::PlatformUnsupported => unsupported_text(),
            Error::StageFailure(message) => message@,
            Error::ProcessLaunchFailure(message) => message@,
            Error::TempFileFailure(message) => message@,
        }
    }

    /// The error's text as a string.
    pub fn message(&self) -> (message: String)
        ensures
            message@ == self.text(),
    {
        match self {
            Error::PlatformUnsupported => String::from_str("Unsupported OS"),
            Error::StageFailure(message) => message.clone(),
            Error::ProcessLaunchFailure(message) => message.clone(),
            Error::TempFileFailure(message) => message.clone(),
        }
    }
}

} // verus!
