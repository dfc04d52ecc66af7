//! Structured errors returned by the application's commands, with a code the
//! frontend can switch on.

use vstd::prelude::*;
use crate::error::{error_message, Error};

verus! {

/// Error codes for the frontend.
#[derive(Debug, Clone, Copy, PartialEq, Eq, Structural)]
pub enum ErrorCode {
    /// Configuration file not found.
    ConfigNotFound,
    /// Configuration file is malformed or invalid.
    ConfigInvalid,
    /// Filesystem I/O error.
    IoError,
    /// OS notification system error.
    NotificationError,
    /// Unclassified internal error.
    Internal,
}

/// A command error: a code and a human-readable message.
#[derive(Debug, Clone)]
pub struct CommandError {
    /// The error code identifying the type of error.
    pub code: ErrorCode,
    /// Human-readable error message.
    pub message: String,
}

/// The code of a core error: a missing file, an invalid configuration, or an
/// I/O failure.
pub open spec fn code_of(e: Error) -> ErrorCode {
    match e {
        Error::ConfigNotFound { .. } => ErrorCode::ConfigNotFound,
        Error::ConfigReadFailed(_) => ErrorCode::IoError,
        _ => ErrorCode::ConfigInvalid,
    }
}

impl CommandError {
    /// Creates a command error with the `Internal` code.
    pub fn internal(message: &str) -> (e: Self)
        ensures
            e.code == ErrorCode::Internal,
            e.message@ == message@,
    {
        CommandError { code: ErrorCode::Internal, message: message.to_owned() }
    }

    /// Creates a command error with the `IoError` code, for a filesystem
    /// failure described by `message`.
    pub fn io(message: &str) -> (e: Self)
        ensures
            e.code == ErrorCode::IoError,
            e.message@ == message@,
    {
        CommandError { code: ErrorCode::IoError, message: message.to_owned() }
    }

    /// The command error for a core error: its code and its message.
    pub fn from_core(err: &Error) -> (e: Self)
        ensures
            e.code == code_of(*err),
            e.message@ == error_message(*err),
    {
        let code = match err {
            Error::ConfigNotFound { .. } => ErrorCode::ConfigNotFound,
            Error::ConfigReadFailed(_) => ErrorCode::IoError,
            _ => ErrorCode::ConfigInvalid,
        };
        CommandError { code, message: err.message() }
    }

    /// The error's message.
    pub fn to_string(&self) -> (s: String)
        ensures
            s@ == self.message@,
    {
        self.message.clone()
    }
}

} // verus!
