//! Loading the tracked file: what is validated, and what is handed back.

use vstd::prelude::*;
use vstd::string::*;
use crate::decode::{decode_ntr_bytes, decode_spec, is_refused, MAX_INPUT_LEN};
use crate::error::TrackError;
use crate::path::{normalize_path, normalize_spec, PathStyle};

verus! {

/// A loaded file: its comparable spelling and its text.
#[derive(Clone, Debug, PartialEq, Eq)]
pub struct OpenFileResponse {
    pub path: String,
    pub contents: String,
}

/// `r` is the failure of a path at which nothing exists.
pub open spec fn is_not_found<T>(r: Result<T, TrackError>) -> bool {
    r matches Err(TrackError::NotFound)
}

/// `r` is the failure of a path that leads to no regular file.
pub open spec fn is_not_a_file<T>(r: Result<T, TrackError>) -> bool {
    r matches Err(TrackError::NotAFile)
}

/// `r` is the failure of a read, with the reason that the system gave.
pub open spec fn is_io_error<T>(r: Result<T, TrackError>, reason: Seq<char>) -> bool {
    r matches Err(TrackError::IoError { reason: s }) && s@ == reason
}

/// `r` is the file `path` with the text `text`.
pub open spec fn is_loaded(
    r: Result<OpenFileResponse, TrackError>,
    path: Seq<char>,
    text: Seq<char>,
) -> bool {
    r matches Ok(f) && f.path@ == path && f.contents@ == text
}

/// The read came back with bytes that the decoder can take.
pub open spec fn readable(read: Result<Vec<u8>, String>) -> bool {
    read matches Ok(bytes) ==> bytes@.len() <= MAX_INPUT_LEN
}

/// Validates what was found at a path before it is read or watched: it
/// must exist, and be a regular file.
pub fn check_target(exists: bool, is_file: bool) -> (r: Result<(), TrackError>)
    ensures
        !exists ==> is_not_found(r),
        exists && !is_file ==> is_not_a_file(r),
        exists && is_file ==> r is Ok,
{
    if !exists {
        Err(TrackError::NotFound)
    } else if !is_file {
        Err(TrackError::NotAFile)
    } else {
        Ok(())
    }
}

/// Turns the outcome of reading the file at `path` into what the command
/// returns: a failed read is an `IoError` with its reason, bytes that break
/// their declared encoding are an `UnsupportedEncoding`, and any other
/// bytes give the decoded text under the path's comparable spelling.
pub fn read_ntr_file(path: &str, read: Result<Vec<u8>, String>, style: PathStyle) -> (r: Result<
    OpenFileResponse,
    TrackError,
>)
    requires
        readable(read),
    ensures
        match read {
            Err(reason) => is_io_error(r, reason@),
            Ok(bytes) => match decode_spec(bytes@) {
                Ok(text) => is_loaded(r, normalize_spec(path@, style), text),
                Err(declared) => is_refused(r, declared),
            },
        },
{
    match read {
        Err(reason) => Err(TrackError::IoError { reason }),
        Ok(bytes) => {
            match decode_ntr_bytes(bytes.as_slice()) {
                Ok(contents) => Ok(OpenFileResponse { path: normalize_path(path, style), contents }),
                Err(e) => Err(e),
            }
        },
    }
}

/// Loads the file at `path` from what was found there: the path is
/// validated first, and only a regular file's read is looked at.
pub fn load_ntr_file(
    path: &str,
    exists: bool,
    is_file: bool,
    read: Result<Vec<u8>, String>,
    style: PathStyle,
) -> (r: Result<OpenFileResponse, TrackError>)
    requires
        exists && is_file ==> readable(read),
    ensures
        !exists ==> is_not_found(r),
        exists && !is_file ==> is_not_a_file(r),
        exists && is_file ==> match read {
            Err(reason) => is_io_error(r, reason@),
            Ok(bytes) => match decode_spec(bytes@) {
                Ok(text) => is_loaded(r, normalize_spec(path@, style), text),
                Err(declared) => is_refused(r, declared),
            },
        },
{
    match check_target(exists, is_file) {
        Err(e) => Err(e),
        Ok(()) => read_ntr_file(path, read, style),
    }
}

/// Reads the file chooser's answer. No selection means that the user
/// cancelled, which is no failure; a selection without a path cannot be
/// opened on this platform; a selection with a path is the path to load.
pub fn open_ntr_file(selection: Option<Option<String>>) -> (r: Result<Option<String>, TrackError>)
    ensures
        match selection {
            None => r == Ok::<Option<String>, TrackError>(None),
            Some(None) => r matches Err(TrackError::PickerUnavailable),
            Some(Some(path)) => r == Ok::<Option<String>, TrackError>(Some(path)),
        },
{
    match selection {
        None => Ok(None),
        Some(None) => Err(TrackError::PickerUnavailable),
        Some(Some(path)) => Ok(Some(path)),
    }
}

/// The line under which a message about the watch is logged.
pub fn log_watch_event(message: &str) -> (r: String)
    ensures
        r@ == "[watch] "@ + message@,
{
    String::from_str("[watch] ").concat(message)
}

/// The greeting for `name`.
pub fn greet(name: &str) -> (r: String)
    ensures
        r@ == "Hello, "@ + name@ + "! You've been greeted from Rust!"@,
{
    String::from_str("Hello, ").concat(name).concat("! You've been greeted from Rust!")
}

} // verus!
