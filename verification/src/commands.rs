//! The closed set of commands a keystroke can produce. Every mutation of
//! the editor flows through one of these, serialized by the dispatch queue.

use vstd::prelude::*;

use crate::editor::EditorMode;

pub mod cursor;
pub mod mode;
pub mod view;

verus! {

/// Every command the editor executes. Commands are immutable values,
/// created by key interpretation and consumed exactly once by the
/// dispatcher.
#[derive(Clone, Copy, PartialEq, Eq, Structural, Debug)]
pub enum Commands {
    // Document
    DocumentInsert(char),
    DocumentDelete,
    DocumentDeleteBackward,
    DocumentPageUp,
    DocumentPageDown,
    DocumentMoveStart,
    DocumentMoveEnd,
    DocumentSave,
    DocumentSearch,
    DocumentQuit,
    // Cursor
    CursorMoveUp,
    CursorMoveDown,
    CursorMoveLeft,
    CursorMoveRight,
    CursorMoveStart,
    CursorMoveEnd,
    CursorMoveNextWord,
    CursorMovePrevWord,
    // Editor
    EditorSwitchMode(EditorMode),
}

/// The backpressure signal: the dispatch queue is full and the command was
/// not accepted. Callers must surface it, never swallow it.
#[derive(Clone, Copy, PartialEq, Eq, Structural, Debug)]
pub struct QueueFullError;

} // verus!
