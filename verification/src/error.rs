//! The failures that the commands report.

use vstd::prelude::*;
use vstd::string::*;
use crate::decode::TextEncoding;

verus! {

/// Why a command failed.
#[derive(Clone, Debug, PartialEq, Eq)]
pub enum TrackError {
    /// Nothing exists at the path.
    NotFound,
    /// The path exists but is a directory or a special file.
    NotAFile,
    /// The file could not be read.
    IoError { reason: String },
    /// The bytes are no text in the encoding that their byte-order mark
    /// declares (`declared` names it), or in no encoding that is tried.
    UnsupportedEncoding { declared: Option<TextEncoding> },
    /// The watcher could not be created or registered.
    WatchError { reason: String },
    /// The file chooser gave a selection that has no path on this platform.
    PickerUnavailable,
}

impl TrackError {
    /// The sentence that tells a reader of the failure.
    pub open spec fn message_spec(self) -> Seq<char> {
        match self {
            TrackError::NotFound => "File not found"@,
            TrackError::NotAFile => "Path does not point to a file"@,
            TrackError::IoError { reason } => "Failed to read file bytes: "@ + reason@,
            TrackError::UnsupportedEncoding { declared: Some(encoding) } => "File encoding "@
                + encoding.name_spec() + " contains invalid sequences"@,
            TrackError::UnsupportedEncoding {
                declared: None,
            } => "Unsupported file encoding; expected UTF-8 or Windows-1252"@,
            TrackError::WatchError { reason } => reason@,
            TrackError::PickerUnavailable => "Selected file is not accessible on this platform"@,
        }
    }

    /// The sentence that tells a reader of the failure.
    pub fn message(&self) -> (r: String)
        ensures
            r@ == self.message_spec(),
    {
        match self {
            TrackError::NotFound => String::from_str("File not found"),
            TrackError::NotAFile => String::from_str("Path does not point to a file"),
            TrackError::IoError { reason } => String::from_str("Failed to read file bytes: ").concat(
                reason.as_str(),
            ),
            TrackError::UnsupportedEncoding { declared: Some(encoding) } => String::from_str(
                "File encoding ",
            ).concat(encoding.name()).concat(" contains invalid sequences"),
            TrackError::UnsupportedEncoding { declared: None } => String::from_str(
                "Unsupported file encoding; expected UTF-8 or Windows-1252",
            ),
            TrackError::WatchError { reason } => reason.clone(),
            TrackError::PickerUnavailable => String::from_str(
                "Selected file is not accessible on this platform",
            ),
        }
    }
}

} // verus!
