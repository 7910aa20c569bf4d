//! Locates the current user's default Firefox profile directory.
//!
//! The library models the whole lookup pipeline: computing the well-known
//! paths beneath the home directory, parsing the INI-style text of
//! `profiles.ini` into a document of named sections, selecting the first
//! `Install`-prefixed section, and reading its `Default` key. Every step is
//! a verified function with a contract; the surrounding binary only performs
//! the file read and the printing.

pub mod document;
pub mod errors;
pub mod parse;
pub mod paths;
pub mod select;
