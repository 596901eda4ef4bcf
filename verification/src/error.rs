//! Error kinds shared across the library.

use vstd::prelude::*;

verus! {

/// The library's error type; each variant carries a short description.
#[derive(Debug, Clone)]
pub enum Error {
    /// Screen capture failed
    CaptureError(String),
    /// Video encoding error
    EncoderError(String),
    /// Input injection error
    InputError(String),
    /// WebSocket error
    WebSocket(String),
    /// Server error
    Server(String),
    /// Configuration error
    Config(String),
    /// Command execution failed
    CommandFailed { command: String, message: String },
    /// Permission denied
    PermissionDenied(String),
    /// Resource not found
    NotFound(String),
    /// Operation cancelled
    Cancelled,
    /// Anything else
    Other(String),
}

impl Error {
    /// Wraps a failed command with its message.
    pub fn command_failed(command: String, message: String) -> (r: Self)
        ensures
            r == (Error::CommandFailed { command, message }),
    {
        Error::CommandFailed { command, message }
    }
}

} // verus!
