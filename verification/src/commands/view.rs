//! Viewport-sized cursor jumps: page movements and the document-extent
//! moves.

use vstd::prelude::*;

use crate::editor::EdState;
use crate::editor::Editor;
use crate::editor::Position;

verus! {

/// Up one viewport height, saturating at the first row.
pub open spec fn spec_page_up(st: EdState) -> EdState {
    EdState {
        cy: if st.cy > st.height {
            st.cy - st.height
        } else {
            0
        },
        ..st
    }
}

/// Down one viewport height, stopping at one past the last row.
pub open spec fn spec_page_down(st: EdState) -> EdState {
    EdState {
        cy: if st.cy + st.height < st.rows.len() {
            st.cy + st.height
        } else {
            st.rows.len() as int
        },
        ..st
    }
}

/// To the document's start: cursor and offset both at the origin.
pub open spec fn spec_move_start_doc(st: EdState) -> EdState {
    EdState { cx: 0, cy: 0, ox: 0, oy: 0, ..st }
}

/// To the document's end: cursor at the last row's first column, the
/// vertical offset pulled up just enough to keep the last page visible.
pub open spec fn spec_move_end_doc(st: EdState) -> EdState {
    let y = if st.rows.len() > 0 {
        st.rows.len() - 1
    } else {
        0
    };
    EdState {
        cx: 0,
        cy: y,
        oy: if y > st.height {
            y - st.height
        } else {
            0
        },
        ..st
    }
}

/// Moves the cursor up one viewport height.
pub fn scroll_up(editor: &mut Editor)
    requires
        old(editor).wf(),
    ensures
        final(editor).wf(),
        final(editor).st() == spec_page_up(old(editor).st()),
        final(editor).document == old(editor).document,
        final(editor).command_queue == old(editor).command_queue,
        final(editor).highlighted_word == old(editor).highlighted_word,
        final(editor).status_message == old(editor).status_message,
{
    let y = editor.cursor_position.y;
    let height = editor.viewport_height;
    let y = if y > height {
        y - height
    } else {
        0
    };
    editor.cursor_position = Position { x: editor.cursor_position.x, y };
    proof {
        assert(final(editor).st() =~= spec_page_up(old(editor).st()));
    }
}

/// Moves the cursor down one viewport height.
pub fn scroll_down(editor: &mut Editor)
    requires
        old(editor).wf(),
    ensures
        final(editor).wf(),
        final(editor).st() == spec_page_down(old(editor).st()),
        final(editor).document == old(editor).document,
        final(editor).command_queue == old(editor).command_queue,
        final(editor).highlighted_word == old(editor).highlighted_word,
        final(editor).status_message == old(editor).status_message,
{
    let y = editor.cursor_position.y;
    let height = editor.viewport_height;
    let len = editor.document.len();
    let y = if y >= len {
        len
    } else if len - y > height {
        y + height
    } else {
        len
    };
    editor.cursor_position = Position { x: editor.cursor_position.x, y };
    proof {
        assert(final(editor).st() =~= spec_page_down(old(editor).st()));
    }
}

/// Jumps to the document's start.
pub fn move_start_of_document(editor: &mut Editor)
    requires
        old(editor).wf(),
    ensures
        final(editor).wf(),
        final(editor).st() == spec_move_start_doc(old(editor).st()),
        final(editor).document == old(editor).document,
        final(editor).command_queue == old(editor).command_queue,
        final(editor).highlighted_word == old(editor).highlighted_word,
        final(editor).status_message == old(editor).status_message,
{
    editor.cursor_position = Position { x: 0, y: 0 };
    editor.offset = Position { x: 0, y: 0 };
    proof {
        assert(final(editor).st() =~= spec_move_start_doc(old(editor).st()));
    }
}

/// Jumps to the document's end.
pub fn move_end_of_document(editor: &mut Editor)
    requires
        old(editor).wf(),
    ensures
        final(editor).wf(),
        final(editor).st() == spec_move_end_doc(old(editor).st()),
        final(editor).document == old(editor).document,
        final(editor).command_queue == old(editor).command_queue,
        final(editor).highlighted_word == old(editor).highlighted_word,
        final(editor).status_message == old(editor).status_message,
{
    let len = editor.document.len();
    let y = if len > 0 {
        len - 1
    } else {
        0
    };
    let height = editor.viewport_height;
    editor.cursor_position = Position { x: 0, y };
    editor.offset.y = if y > height {
        y - height
    } else {
        0
    };
    proof {
        assert(final(editor).st() =~= spec_move_end_doc(old(editor).st()));
    }
}

} // verus!
