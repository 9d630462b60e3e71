//! Cursor movement commands: the pure step each one takes on the editor
//! state, and its executable counterpart.
//!
//! The cursor's column is clamped to the current row's length whenever a
//! movement reads it; the stored column itself is only overwritten by the
//! move's result. The policy is deliberate: a vertical move stores the
//! column as clamped at the row it leaves, so an over-long column survives
//! one move off a long row, but standing on a short row forgets it. No
//! separate sticky column is kept.

use vstd::prelude::*;
use vstd::string::StrSliceExecFns;

use crate::editor::EdState;
use crate::editor::Editor;
use crate::editor::Position;
use crate::graphemes::grapheme_count;
use crate::graphemes::graphemes_of;
use crate::graphemes::is_space_char;
use crate::graphemes::segment_graphemes;
use crate::graphemes::space_char;
use crate::row::Row;

verus! {

/// The grapheme length of row `y`, or `0` where no such row exists.
pub open spec fn row_len(rows: Seq<Seq<char>>, y: int) -> int {
    if 0 <= y < rows.len() {
        grapheme_count(rows[y]) as int
    } else {
        0
    }
}

/// The column the cursor reads as: its stored column, clamped to the
/// current row's length.
pub open spec fn clamped_x(st: EdState) -> int {
    let w = row_len(st.rows, st.cy);
    if st.cx > w {
        w
    } else {
        st.cx
    }
}

/// Up one row, saturating at the first.
pub open spec fn spec_move_up(st: EdState) -> EdState {
    EdState {
        cx: clamped_x(st),
        cy: if st.cy > 0 {
            st.cy - 1
        } else {
            0
        },
        ..st
    }
}

/// Down one row, stopping one past the last row.
pub open spec fn spec_move_down(st: EdState) -> EdState {
    EdState {
        cx: clamped_x(st),
        cy: if st.cy < st.rows.len() {
            st.cy + 1
        } else {
            st.cy
        },
        ..st
    }
}

/// Left one column; at a row's start, to the end of the previous row.
pub open spec fn spec_move_left(st: EdState) -> EdState {
    let x = clamped_x(st);
    if x > 0 {
        EdState { cx: x - 1, ..st }
    } else if st.cy > 0 {
        EdState { cx: row_len(st.rows, st.cy - 1), cy: st.cy - 1, ..st }
    } else {
        EdState { cx: x, ..st }
    }
}

/// Right one column; at a row's end, to the start of the next row.
pub open spec fn spec_move_right(st: EdState) -> EdState {
    let x = clamped_x(st);
    let w = row_len(st.rows, st.cy);
    if x < w {
        EdState { cx: x + 1, ..st }
    } else if st.cy < st.rows.len() {
        EdState { cx: 0, cy: st.cy + 1, ..st }
    } else {
        EdState { cx: x, ..st }
    }
}

/// To the first column of the row.
pub open spec fn spec_move_start(st: EdState) -> EdState {
    EdState { cx: 0, ..st }
}

/// To the column one past the row's last grapheme.
pub open spec fn spec_move_end(st: EdState) -> EdState {
    EdState { cx: row_len(st.rows, st.cy), ..st }
}

/// Whether cluster `g` of `s` is whitespace: its first character is.
pub open spec fn cluster_space(s: Seq<char>, g: int) -> bool {
    is_space_char(graphemes_of(s)[g][0])
}

/// The first column at or after `g` that is not whitespace, or the row's
/// end.
pub open spec fn skip_space_fwd(s: Seq<char>, g: int) -> int
    decreases grapheme_count(s) - g,
{
    if g >= grapheme_count(s) {
        g
    } else if cluster_space(s, g) {
        skip_space_fwd(s, g + 1)
    } else {
        g
    }
}

/// The first column at or after `g` that is whitespace, or the row's end.
pub open spec fn skip_word_fwd(s: Seq<char>, g: int) -> int
    decreases grapheme_count(s) - g,
{
    if g >= grapheme_count(s) {
        g
    } else if !cluster_space(s, g) {
        skip_word_fwd(s, g + 1)
    } else {
        g
    }
}

/// The end of the whitespace-delimited token at or after column `x`.
pub open spec fn next_word_col(s: Seq<char>, x: int) -> int {
    skip_word_fwd(s, skip_space_fwd(s, x))
}

/// The first column at or before `g` that no whitespace precedes.
pub open spec fn skip_space_bwd(s: Seq<char>, g: int) -> int
    decreases g,
{
    if g <= 0 {
        0
    } else if cluster_space(s, g - 1) {
        skip_space_bwd(s, g - 1)
    } else {
        g
    }
}

/// The first column at or before `g` that no word character precedes.
pub open spec fn skip_word_bwd(s: Seq<char>, g: int) -> int
    decreases g,
{
    if g <= 0 {
        0
    } else if !cluster_space(s, g - 1) {
        skip_word_bwd(s, g - 1)
    } else {
        g
    }
}

/// The start of the whitespace-delimited token before column `x`.
pub open spec fn prev_word_col(s: Seq<char>, x: int) -> int {
    skip_word_bwd(s, skip_space_bwd(s, x))
}

/// To the end of the current token, skipping leading whitespace first; on
/// a cursor row past the document nothing moves.
pub open spec fn spec_move_next_word(st: EdState) -> EdState {
    if 0 <= st.cy < st.rows.len() {
        EdState { cx: next_word_col(st.rows[st.cy], clamped_x(st)), ..st }
    } else {
        st
    }
}

/// To the start of the previous token; from the first column, or on a
/// cursor row past the document, only the clamp applies.
pub open spec fn spec_move_prev_word(st: EdState) -> EdState {
    let x = clamped_x(st);
    if x > 0 && 0 <= st.cy < st.rows.len() {
        EdState { cx: prev_word_col(st.rows[st.cy], x), ..st }
    } else {
        EdState { cx: x, ..st }
    }
}

/// The cursor position as movements read it: the stored row, and the
/// column clamped to that row's length — never negative, never beyond the
/// row's end.
pub fn get_cursor_position(editor: &Editor) -> (p: Position)
    requires
        editor.wf(),
    ensures
        p.y == editor.cursor_position.y,
        p.x as int == clamped_x(editor.st()),
        p.x <= editor.cursor_position.x,
{
    let y = editor.cursor_position.y;
    let x = editor.cursor_position.x;
    let width = match editor.document.row(y) {
        Some(row) => row.len(),
        None => 0,
    };
    let x = if x > width {
        width
    } else {
        x
    };
    Position { x, y }
}

/// Whether each cluster of the row is whitespace.
fn cluster_spaces(row: &Row) -> (v: Vec<bool>)
    requires
        row.wf(),
    ensures
        v@.len() == grapheme_count(row.string@),
        forall|i: int| 0 <= i < v@.len() ==> v@[i] == cluster_space(row.string@, i),
{
    let ghost s = row.string@;
    let gs = segment_graphemes(row.string.as_str());
    let mut v: Vec<bool> = Vec::new();
    let mut i: usize = 0;
    while i < gs.len()
        invariant
            s == row.string@,
            gs@.map_values(|g: String| g@) == graphemes_of(s),
            crate::graphemes::seg_facts(s),
            0 <= i <= gs@.len(),
            v@.len() == i,
            forall|j: int| 0 <= j < i ==> v@[j] == cluster_space(s, j),
        decreases gs@.len() - i,
    {
        proof {
            assert(gs@[i as int]@ == graphemes_of(s)[i as int]);
            assert(graphemes_of(s)[i as int].len() >= 1);
        }
        let c = gs[i].as_str().get_char(0);
        v.push(space_char(c));
        i = i + 1;
    }
    v
}

/// Moves the cursor up one row.
pub struct CursorMoveUpCommand;

/// Moves the cursor down one row.
pub struct CursorMoveDownCommand;

/// Moves the cursor left one column.
pub struct CursorMoveLeftCommand;

/// Moves the cursor right one column.
pub struct CursorMoveRightCommand;

/// Moves the cursor to the start of the row.
pub struct CursorMoveStartCommand;

/// Moves the cursor to the end of the row.
pub struct CursorMoveEndCommand;

/// Moves the cursor to the end of the current word.
pub struct CursorMoveNextWordCommand;

/// Moves the cursor to the start of the previous word.
pub struct CursorMovePrevWordCommand;

impl CursorMoveUpCommand {
    /// One step up, per `spec_move_up`.
    pub fn execute(&self, editor: &mut Editor)
        requires
            old(editor).wf(),
        ensures
            final(editor).wf(),
            final(editor).st() == spec_move_up(old(editor).st()),
            final(editor).document == old(editor).document,
            final(editor).command_queue == old(editor).command_queue,
            final(editor).highlighted_word == old(editor).highlighted_word,
            final(editor).status_message == old(editor).status_message,
    {
        let p = get_cursor_position(editor);
        let y = if p.y > 0 {
            p.y - 1
        } else {
            0
        };
        editor.cursor_position = Position { x: p.x, y };
        proof {
            assert(final(editor).st() =~= spec_move_up(old(editor).st()));
        }
    }
}

impl CursorMoveDownCommand {
    /// One step down, per `spec_move_down`.
    pub fn execute(&self, editor: &mut Editor)
        requires
            old(editor).wf(),
        ensures
            final(editor).wf(),
            final(editor).st() == spec_move_down(old(editor).st()),
            final(editor).document == old(editor).document,
            final(editor).command_queue == old(editor).command_queue,
            final(editor).highlighted_word == old(editor).highlighted_word,
            final(editor).status_message == old(editor).status_message,
    {
        let p = get_cursor_position(editor);
        let height = editor.document.len();
        let y = if p.y < height {
            p.y + 1
        } else {
            p.y
        };
        editor.cursor_position = Position { x: p.x, y };
        proof {
            assert(final(editor).st() =~= spec_move_down(old(editor).st()));
        }
    }
}

impl CursorMoveLeftCommand {
    /// One step left, per `spec_move_left`.
    pub fn execute(&self, editor: &mut Editor)
        requires
            old(editor).wf(),
        ensures
            final(editor).wf(),
            final(editor).st() == spec_move_left(old(editor).st()),
            final(editor).document == old(editor).document,
            final(editor).command_queue == old(editor).command_queue,
            final(editor).highlighted_word == old(editor).highlighted_word,
            final(editor).status_message == old(editor).status_message,
    {
        let p = get_cursor_position(editor);
        let mut x = p.x;
        let mut y = p.y;
        if x > 0 {
            x = x - 1;
        } else if y > 0 {
            y = y - 1;
            x = match editor.document.row(y) {
                Some(row) => row.len(),
                None => 0,
            };
        }
        editor.cursor_position = Position { x, y };
        proof {
            assert(final(editor).st() =~= spec_move_left(old(editor).st()));
        }
    }
}

impl CursorMoveRightCommand {
    /// One step right, per `spec_move_right`.
    pub fn execute(&self, editor: &mut Editor)
        requires
            old(editor).wf(),
        ensures
            final(editor).wf(),
            final(editor).st() == spec_move_right(old(editor).st()),
            final(editor).document == old(editor).document,
            final(editor).command_queue == old(editor).command_queue,
            final(editor).highlighted_word == old(editor).highlighted_word,
            final(editor).status_message == old(editor).status_message,
    {
        let p = get_cursor_position(editor);
        let mut x = p.x;
        let mut y = p.y;
        let height = editor.document.len();
        let width = match editor.document.row(y) {
            Some(row) => row.len(),
            None => 0,
        };
        if x < width {
            x = x + 1;
        } else if y < height {
            y = y + 1;
            x = 0;
        }
        editor.cursor_position = Position { x, y };
        proof {
            assert(final(editor).st() =~= spec_move_right(old(editor).st()));
        }
    }
}

impl CursorMoveStartCommand {
    /// To column zero, per `spec_move_start`.
    pub fn execute(&self, editor: &mut Editor)
        requires
            old(editor).wf(),
        ensures
            final(editor).wf(),
            final(editor).st() == spec_move_start(old(editor).st()),
            final(editor).document == old(editor).document,
            final(editor).command_queue == old(editor).command_queue,
            final(editor).highlighted_word == old(editor).highlighted_word,
            final(editor).status_message == old(editor).status_message,
    {
        let p = get_cursor_position(editor);
        editor.cursor_position = Position { x: 0, y: p.y };
        proof {
            assert(final(editor).st() =~= spec_move_start(old(editor).st()));
        }
    }
}

impl CursorMoveEndCommand {
    /// To the row's end, per `spec_move_end`.
    pub fn execute(&self, editor: &mut Editor)
        requires
            old(editor).wf(),
        ensures
            final(editor).wf(),
            final(editor).st() == spec_move_end(old(editor).st()),
            final(editor).document == old(editor).document,
            final(editor).command_queue == old(editor).command_queue,
            final(editor).highlighted_word == old(editor).highlighted_word,
            final(editor).status_message == old(editor).status_message,
    {
        let p = get_cursor_position(editor);
        let width = match editor.document.row(p.y) {
            Some(row) => row.len(),
            None => 0,
        };
        editor.cursor_position = Position { x: width, y: p.y };
        proof {
            assert(final(editor).st() =~= spec_move_end(old(editor).st()));
        }
    }
}

impl CursorMoveNextWordCommand {
    /// To the current token's end, per `spec_move_next_word`.
    pub fn execute(&self, editor: &mut Editor)
        requires
            old(editor).wf(),
        ensures
            final(editor).wf(),
            final(editor).st() == spec_move_next_word(old(editor).st()),
            final(editor).document == old(editor).document,
            final(editor).command_queue == old(editor).command_queue,
            final(editor).highlighted_word == old(editor).highlighted_word,
            final(editor).status_message == old(editor).status_message,
    {
        let p = get_cursor_position(editor);
        match editor.document.row(p.y) {
            Some(row) => {
                let ghost s = row.string@;
                let sp = cluster_spaces(row);
                let n = sp.len();
                let mut g = p.x;
                while g < n && sp[g]
                    invariant
                        n == grapheme_count(s),
                        sp@.len() == n,
                        forall|j: int| 0 <= j < n ==> sp@[j] == cluster_space(s, j),
                        p.x <= g <= n,
                        skip_space_fwd(s, p.x as int) == skip_space_fwd(s, g as int),
                    decreases n - g,
                {
                    g = g + 1;
                }
                proof {
                    assert(skip_space_fwd(s, g as int) == g);
                }
                let mut w = g;
                while w < n && !sp[w]
                    invariant
                        n == grapheme_count(s),
                        sp@.len() == n,
                        forall|j: int| 0 <= j < n ==> sp@[j] == cluster_space(s, j),
                        g <= w <= n,
                        skip_word_fwd(s, g as int) == skip_word_fwd(s, w as int),
                    decreases n - w,
                {
                    w = w + 1;
                }
                proof {
                    assert(skip_word_fwd(s, w as int) == w);
                }
                editor.cursor_position = Position { x: w, y: p.y };
                proof {
                    assert(final(editor).st() =~= spec_move_next_word(old(editor).st()));
                }
            },
            None => {
                proof {
                    assert(final(editor).st() =~= spec_move_next_word(old(editor).st()));
                }
            },
        }
    }
}

impl CursorMovePrevWordCommand {
    /// To the previous token's start, per `spec_move_prev_word`.
    pub fn execute(&self, editor: &mut Editor)
        requires
            old(editor).wf(),
        ensures
            final(editor).wf(),
            final(editor).st() == spec_move_prev_word(old(editor).st()),
            final(editor).document == old(editor).document,
            final(editor).command_queue == old(editor).command_queue,
            final(editor).highlighted_word == old(editor).highlighted_word,
            final(editor).status_message == old(editor).status_message,
    {
        let p = get_cursor_position(editor);
        let mut x = p.x;
        if x > 0 {
            match editor.document.row(p.y) {
                Some(row) => {
                    let ghost s = row.string@;
                    let sp = cluster_spaces(row);
                    let mut g = x;
                    while g > 0 && sp[g - 1]
                        invariant
                            sp@.len() == grapheme_count(s),
                            forall|j: int|
                                0 <= j < grapheme_count(s) ==> sp@[j] == cluster_space(s, j),
                            0 <= g <= x,
                            x <= grapheme_count(s),
                            skip_space_bwd(s, x as int) == skip_space_bwd(s, g as int),
                        decreases g,
                    {
                        g = g - 1;
                    }
                    proof {
                        assert(skip_space_bwd(s, g as int) == g);
                    }
                    let mut w = g;
                    while w > 0 && !sp[w - 1]
                        invariant
                            sp@.len() == grapheme_count(s),
                            forall|j: int|
                                0 <= j < grapheme_count(s) ==> sp@[j] == cluster_space(s, j),
                            0 <= w <= g,
                            g <= grapheme_count(s),
                            skip_word_bwd(s, g as int) == skip_word_bwd(s, w as int),
                        decreases w,
                    {
                        w = w - 1;
                    }
                    proof {
                        assert(skip_word_bwd(s, w as int) == w);
                    }
                    x = w;
                },
                None => {},
            }
        }
        editor.cursor_position = Position { x, y: p.y };
        proof {
            assert(final(editor).st() =~= spec_move_prev_word(old(editor).st()));
        }
    }
}

} // verus!
