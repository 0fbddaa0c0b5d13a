//! The closed set of failures that the engine reports.

use vstd::prelude::*;

verus! {

/// What went wrong. Every variant has a fixed message for display.
#[derive(Debug, Clone, Copy, PartialEq, Eq, Structural)]
pub enum ErrorCode {
    /// The bytes do not form a decodable image, or the base64 text is malformed.
    UnableToDecode,
    /// The input text could not be parsed.
    InvalidParsing,
    /// Writing the encoded image failed.
    UnableToSave,
    /// A filter needed at least one color and got none.
    NoColorInput,
    /// The requested capability is not implemented.
    NotImplemented,
}

impl ErrorCode {
    /// The message of each variant, as a sequence of characters.
    pub open spec fn message_text(self) -> Seq<char> {
        match self {
            ErrorCode::InvalidParsing => "Invalid parsing"@,
            ErrorCode::UnableToDecode => "Unable to decode"@,
            ErrorCode::UnableToSave => "Unable to save"@,
            ErrorCode::NoColorInput => "No color to apply for filter"@,
            ErrorCode::NotImplemented => "Not implemented yet"@,
        }
    }

    /// The message to show to a user.
    pub fn message(&self) -> (text: &'static str)
        ensures
            text@ == self.message_text(),
    {
        match self {
            ErrorCode::InvalidParsing => "Invalid parsing",
            ErrorCode::UnableToDecode => "Unable to decode",
            ErrorCode::UnableToSave => "Unable to save",
            ErrorCode::NoColorInput => "No color to apply for filter",
            ErrorCode::NotImplemented => "Not implemented yet",
        }
    }
}

} // verus!
