//! The failures that the engine reports.

use vstd::prelude::*;
use vstd::string::*;

verus! {

/// Why an operation was refused.
#[derive(Clone, Copy, Debug, PartialEq, Eq, Structural)]
pub enum EngineError {
    /// A version string is not a dotted triple of integers.
    InvalidVersion,
    /// A loader was asked for while what it depends on is not in place.
    PrerequisiteMissing,
    /// The target of the operation is not on disk.
    NotFound,
    /// The metadata registry could not be read as a mapping of records.
    MalformedMetadata,
    /// The directory does not look like an installation of the game.
    NotAnInstallation,
}

impl EngineError {
    /// The text of each failure, as a sequence of characters.
    pub open spec fn message_text(self) -> Seq<char> {
        match self {
            EngineError::InvalidVersion => "Invalid version string"@,
            EngineError::PrerequisiteMissing => "Required loader shim is missing"@,
            EngineError::NotFound => "Target not found"@,
            EngineError::MalformedMetadata => "Failed to parse metadata"@,
            EngineError::NotAnInstallation => "This doesn't appear to be a SpiderHeck installation"@,
        }
    }

    /// A human-readable cause for the failure.
    pub fn message(&self) -> (r: String)
        ensures
            r@ == self.message_text(),
    {
        match self {
            EngineError::InvalidVersion => String::from_str("Invalid version string"),
            EngineError::PrerequisiteMissing => String::from_str("Required loader shim is missing"),
            EngineError::NotFound => String::from_str("Target not found"),
            EngineError::MalformedMetadata => String::from_str("Failed to parse metadata"),
            EngineError::NotAnInstallation => String::from_str(
                "This doesn't appear to be a SpiderHeck installation",
            ),
        }
    }
}

} // verus!
