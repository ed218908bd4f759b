//! A trash-can engine following the FreeDesktop.org Trash specification.
//!
//! The crate holds the rules of the trash can as verified functions on plain
//! values: which trash directory serves a path, how a trashed item is named
//! and recorded, how records are read back, and in which order the file
//! system is touched. Reading and changing the file system is left to the
//! caller, which performs the actions these functions ask for.

pub mod actions;
pub mod cli;
pub mod color;
pub mod constants;
pub mod emptying;
pub mod error;
pub mod file_type;
pub mod locations;
pub mod paths;
pub mod record;
pub mod restoring;
pub mod round_trip;
pub mod text;
pub mod trashing;
pub mod url_escape;
