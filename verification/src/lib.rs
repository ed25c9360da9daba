//! Tracking of a single text file: comparable path spelling, byte-to-text
//! decoding with a fixed order of encodings, and the decisions of a watch
//! session that forwards only the changes of the tracked file.

pub mod path;
pub mod decode;
pub mod error;
pub mod event;
pub mod load;
pub mod session;
