//! Core of a terminal text editor: grapheme-indexed rows, a document of rows
//! with bidirectional search, cursor/viewport coordination, and a serialized
//! command dispatch queue. Terminal I/O, persistence and escape emission live
//! outside this crate; the logic here is verified.

pub mod commands;
pub mod document;
pub mod editor;
pub mod filetype;
pub mod graphemes;
pub mod highlight;
pub mod queue;
pub mod row;
