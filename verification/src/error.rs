//! The core error type and its human-readable messages.

use vstd::prelude::*;
use crate::game_id::{GameId, game_display};
use crate::region::{Region, region_str};
use crate::text::{join2, join3};

verus! {

/// Core error type for Storekeeper operations.
#[derive(Debug)]
pub enum Error {
    /// Configuration file not found.
    ConfigNotFound {
        /// Path to the missing configuration file.
        path: String,
    },
    /// Failed to parse configuration.
    ConfigParseFailed {
        /// What was wrong.
        message: String,
    },
    /// Failed to read a configuration file (the I/O error's message).
    ConfigReadFailed(String),
    /// TOML deserialization error (the parser's message).
    TomlDeserialize(String),
    /// Validation error for configuration or input.
    ValidationError {
        /// The field that failed validation.
        field: String,
        /// The constraint that was violated.
        constraint: String,
    },
    /// Invalid region specified.
    InvalidRegion(String),
    /// Failed to determine region from UID.
    UnknownUidRegion(String),
    /// The game runs no server in the region.
    UnsupportedRegion {
        /// The game asked about.
        game: GameId,
        /// The region it has no server in.
        region: Region,
    },
}

/// The message an error displays.
pub open spec fn error_message(e: Error) -> Seq<char> {
    match e {
        Error::ConfigNotFound { path } => "Configuration file not found: "@ + path@,
        Error::ConfigParseFailed { message } => "Failed to parse configuration: "@ + message@,
        Error::ConfigReadFailed(m) => "Failed to read configuration file: "@ + m@,
        Error::TomlDeserialize(m) => "TOML deserialization error: "@ + m@,
        Error::ValidationError { field, constraint } => "Validation error: "@ + field@ + " "@
            + constraint@,
        Error::InvalidRegion(m) => "Invalid region: "@ + m@,
        Error::UnknownUidRegion(m) => "Could not determine region from UID: "@ + m@,
        Error::UnsupportedRegion { game, region } => game_display(game) + " has no "@
            + region_str(region) + " server"@,
    }
}

impl Error {
    /// The human-readable message of this error.
    pub fn message(&self) -> (s: String)
        ensures
            s@ == error_message(*self),
    {
        match self {
            Error::ConfigNotFound { path } => join2("Configuration file not found: ", path.as_str()),
            Error::ConfigParseFailed { message } => join2(
                "Failed to parse configuration: ",
                message.as_str(),
            ),
            Error::ConfigReadFailed(m) => join2("Failed to read configuration file: ", m.as_str()),
            Error::TomlDeserialize(m) => join2("TOML deserialization error: ", m.as_str()),
            Error::ValidationError { field, constraint } => {
                let mut r = join3("Validation error: ", field.as_str(), " ");
                r.append(constraint.as_str());
                r
            },
            Error::InvalidRegion(m) => join2("Invalid region: ", m.as_str()),
            Error::UnknownUidRegion(m) => join2("Could not determine region from UID: ", m.as_str()),
            Error::UnsupportedRegion { game, region } => {
                let mut r = join3(game.display_name(), " has no ", region.as_str());
                r.append(" server");
                r
            },
        }
    }
}

} // verus!
