//! The editor aggregate: document, cursor, viewport offset, mode state
//! machine, command dispatch and the quit countdown.
//!
//! Every command's effect on the editor is captured by a pure step function
//! over `EdState`, the mathematical view of the editor; executing a command
//! is proved equal to that step, and draining the queue is proved to fold
//! the step over the queued commands in submission order.

use vstd::prelude::*;
use vstd::string::StringExecFns;

use crate::commands::cursor::clamped_x;
use crate::commands::cursor::get_cursor_position;
use crate::commands::cursor::spec_move_down;
use crate::commands::cursor::spec_move_end;
use crate::commands::cursor::spec_move_left;
use crate::commands::cursor::spec_move_next_word;
use crate::commands::cursor::spec_move_prev_word;
use crate::commands::cursor::spec_move_right;
use crate::commands::cursor::spec_move_start;
use crate::commands::cursor::spec_move_up;
use crate::commands::cursor::CursorMoveDownCommand;
use crate::commands::cursor::CursorMoveEndCommand;
use crate::commands::cursor::CursorMoveLeftCommand;
use crate::commands::cursor::CursorMoveNextWordCommand;
use crate::commands::cursor::CursorMovePrevWordCommand;
use crate::commands::cursor::CursorMoveRightCommand;
use crate::commands::cursor::CursorMoveStartCommand;
use crate::commands::cursor::CursorMoveUpCommand;
use crate::commands::mode::SetModeCommand;
use crate::commands::view::move_end_of_document;
use crate::commands::view::move_start_of_document;
use crate::commands::view::scroll_down;
use crate::commands::view::scroll_up;
use crate::commands::view::spec_move_end_doc;
use crate::commands::view::spec_move_start_doc;
use crate::commands::view::spec_page_down;
use crate::commands::view::spec_page_up;
use crate::commands::Commands;
use crate::commands::QueueFullError;
use crate::document::doc_bwd_match;
use crate::document::doc_delete;
use crate::document::doc_fwd_match;
use crate::document::doc_insert;
use crate::document::Document;
use crate::queue::queue_bound;
use crate::queue::queue_view;
use crate::queue::CommandQueue;

verus! {

/// How many times quit must be asked for in a row to leave a dirty
/// document.
pub const QUIT_TIMES: u8 = 3;

/// The bound of the command dispatch queue.
pub const QUEUE_CAPACITY: usize = 100;

/// A document coordinate: `x` is a grapheme column, `y` a row index.
#[derive(Clone, Copy, PartialEq, Eq, Structural, Debug)]
pub struct Position {
    pub x: usize,
    pub y: usize,
}

impl Default for Position {
    /// The origin, `{0, 0}`.
    fn default() -> (r: Self)
        ensures
            r.x == 0 && r.y == 0,
    {
        Position { x: 0, y: 0 }
    }
}

/// Which way a search scans from its starting position.
#[derive(Clone, Copy, PartialEq, Eq, Structural, Debug)]
pub enum SearchDirection {
    Forward,
    Backward,
}

/// Text shown in the status bar; how long it stays visible is the
/// renderer's business, not this crate's.
pub struct StatusMessage {
    pub text: String,
}

impl StatusMessage {
    /// Wraps a line of text for the status bar.
    pub fn from(message: String) -> (r: Self)
        ensures
            r.text@ == message@,
    {
        StatusMessage { text: message }
    }
}

/// The editor's input mode; exactly one is active and gates which commands
/// a keystroke may produce.
#[derive(Clone, Copy, PartialEq, Eq, Structural, Debug)]
pub enum EditorMode {
    Normal,
    Insert,
    Command,
}

/// The abstract key events the editor consumes; how a terminal encodes
/// them is the input layer's business.
#[derive(Clone, Copy, PartialEq, Eq, Structural, Debug)]
pub enum Key {
    Char(char),
    Ctrl(char),
    Up,
    Down,
    Left,
    Right,
    PageUp,
    PageDown,
    Home,
    End,
    Backspace,
    Delete,
    Esc,
}

/// What the caller must do after a command executed: nothing, or run the
/// save or search interaction the command asked for.
#[derive(Clone, Copy, PartialEq, Eq, Structural, Debug)]
pub enum EditorAction {
    Proceed,
    SaveRequested,
    SearchRequested,
}

/// The mathematical view of the editor: row texts, cursor, offset, mode,
/// dirty flag, quit countdown and viewport extent. The command step
/// function is defined over this state.
#[verifier::ext_equal]
pub struct EdState {
    pub rows: Seq<Seq<char>>,
    pub dirty: bool,
    pub cx: int,
    pub cy: int,
    pub ox: int,
    pub oy: int,
    pub mode: EditorMode,
    pub quit_times: int,
    pub should_quit: bool,
    pub width: int,
    pub height: int,
}

/// Inserting a character at the clamped cursor position, then moving the
/// cursor one step right, as a character insertion implies.
pub open spec fn spec_insert_cmd(st: EdState, c: char) -> EdState {
    let x = clamped_x(st);
    let st1 = EdState {
        rows: doc_insert(st.rows, st.cy, x, c),
        dirty: if st.cy > st.rows.len() {
            st.dirty
        } else {
            true
        },
        cx: x,
        ..st
    };
    spec_move_right(st1)
}

/// Deleting at the clamped cursor position.
pub open spec fn spec_delete_cmd(st: EdState) -> EdState {
    let x = clamped_x(st);
    EdState {
        rows: doc_delete(st.rows, st.cy, x),
        dirty: if st.cy >= st.rows.len() {
            st.dirty
        } else {
            true
        },
        cx: x,
        ..st
    }
}

/// Deleting before the cursor: a step left, then a delete there; at the
/// origin nothing happens.
pub open spec fn spec_delete_backward_cmd(st: EdState) -> EdState {
    let x = clamped_x(st);
    if x == 0 && st.cy == 0 {
        EdState { cx: x, ..st }
    } else {
        let stl = spec_move_left(EdState { cx: x, ..st });
        EdState {
            rows: doc_delete(stl.rows, stl.cy, stl.cx),
            dirty: if stl.cy >= stl.rows.len() {
                stl.dirty
            } else {
                true
            },
            ..stl
        }
    }
}

/// The quit-confirmation sub-state: a clean document quits at once; a
/// dirty one counts the request down and quits when the countdown is
/// spent.
pub open spec fn spec_quit(st: EdState) -> EdState {
    if !st.dirty {
        EdState { should_quit: true, ..st }
    } else if st.quit_times <= 1 {
        EdState { quit_times: 0, should_quit: true, ..st }
    } else {
        EdState { quit_times: st.quit_times - 1, ..st }
    }
}

/// Minimal-movement scrolling: each offset axis shifts exactly enough to
/// bring the cursor back into the viewport, and not otherwise.
pub open spec fn spec_scroll(st: EdState) -> EdState {
    let oy = if st.cy < st.oy {
        st.cy
    } else if st.cy - st.oy >= st.height {
        st.cy - st.height + 1
    } else {
        st.oy
    };
    let ox = if st.cx < st.ox {
        st.cx
    } else if st.cx - st.ox >= st.width {
        st.cx - st.width + 1
    } else {
        st.ox
    };
    EdState { ox: ox, oy: oy, ..st }
}

/// A command's own effect on the editor state.
pub open spec fn spec_apply(st: EdState, c: Commands) -> EdState {
    match c {
        Commands::DocumentInsert(ch) => spec_insert_cmd(st, ch),
        Commands::DocumentDelete => spec_delete_cmd(st),
        Commands::DocumentDeleteBackward => spec_delete_backward_cmd(st),
        Commands::DocumentPageUp => spec_page_up(st),
        Commands::DocumentPageDown => spec_page_down(st),
        Commands::DocumentMoveStart => spec_move_start_doc(st),
        Commands::DocumentMoveEnd => spec_move_end_doc(st),
        Commands::DocumentSave => st,
        Commands::DocumentSearch => st,
        Commands::DocumentQuit => spec_quit(st),
        Commands::CursorMoveUp => spec_move_up(st),
        Commands::CursorMoveDown => spec_move_down(st),
        Commands::CursorMoveLeft => spec_move_left(st),
        Commands::CursorMoveRight => spec_move_right(st),
        Commands::CursorMoveStart => spec_move_start(st),
        Commands::CursorMoveEnd => spec_move_end(st),
        Commands::CursorMoveNextWord => spec_move_next_word(st),
        Commands::CursorMovePrevWord => spec_move_prev_word(st),
        Commands::EditorSwitchMode(m) => EdState { mode: m, ..st },
    }
}

/// One full dispatch step: the command's effect, then — for any command
/// but quit — a fresh quit countdown, then the scroll recompute.
pub open spec fn spec_step(st: EdState, c: Commands) -> EdState {
    let s1 = spec_apply(st, c);
    let s2 = if c is DocumentQuit {
        s1
    } else {
        EdState { quit_times: QUIT_TIMES as int, ..s1 }
    };
    spec_scroll(s2)
}

/// The interaction a command asks of the caller.
pub open spec fn spec_action(c: Commands) -> EditorAction {
    match c {
        Commands::DocumentSave => EditorAction::SaveRequested,
        Commands::DocumentSearch => EditorAction::SearchRequested,
        _ => EditorAction::Proceed,
    }
}

/// Draining a command sequence: steps are applied strictly in order, one
/// at a time, and stop once quit has been decided.
pub open spec fn spec_drain(st: EdState, cmds: Seq<Commands>) -> EdState
    decreases cmds.len(),
{
    if cmds.len() == 0 || st.should_quit {
        st
    } else {
        spec_drain(spec_step(st, cmds[0]), cmds.drop_first())
    }
}

/// The actions a drain hands back, in the order the commands executed.
pub open spec fn spec_drain_acts(st: EdState, cmds: Seq<Commands>) -> Seq<EditorAction>
    decreases cmds.len(),
{
    if cmds.len() == 0 || st.should_quit {
        Seq::<EditorAction>::empty()
    } else {
        seq![spec_action(cmds[0])] + spec_drain_acts(spec_step(st, cmds[0]), cmds.drop_first())
    }
}

/// What a drain leaves in the queue: nothing, unless quit cut it short.
pub open spec fn spec_drain_rest(st: EdState, cmds: Seq<Commands>) -> Seq<Commands>
    decreases cmds.len(),
{
    if cmds.len() == 0 || st.should_quit {
        cmds
    } else {
        spec_drain_rest(spec_step(st, cmds[0]), cmds.drop_first())
    }
}

/// The mode-dependent reading of a key event. In `Normal`, navigation and
/// the control chords; `i` enters `Insert`. In `Insert`, characters become
/// insertions, the deletion keys become deletions, and escape returns to
/// `Normal`. In `Command` the prompt loop reads keys itself, so none map.
pub open spec fn spec_interpret(mode: EditorMode, key: Key) -> Option<Commands> {
    match mode {
        EditorMode::Normal => match key {
            Key::Char('i') => Some(Commands::EditorSwitchMode(EditorMode::Insert)),
            Key::Char('h') => Some(Commands::CursorMoveLeft),
            Key::Char('j') => Some(Commands::CursorMoveUp),
            Key::Char('k') => Some(Commands::CursorMoveDown),
            Key::Char('l') => Some(Commands::CursorMoveRight),
            Key::Char('w') => Some(Commands::CursorMoveNextWord),
            Key::Char('b') => Some(Commands::CursorMovePrevWord),
            Key::Left => Some(Commands::CursorMoveLeft),
            Key::Up => Some(Commands::CursorMoveUp),
            Key::Down => Some(Commands::CursorMoveDown),
            Key::Right => Some(Commands::CursorMoveRight),
            Key::Home => Some(Commands::CursorMoveStart),
            Key::End => Some(Commands::CursorMoveEnd),
            Key::PageUp => Some(Commands::DocumentPageUp),
            Key::PageDown => Some(Commands::DocumentPageDown),
            Key::Ctrl('q') => Some(Commands::DocumentQuit),
            Key::Ctrl('s') => Some(Commands::DocumentSave),
            Key::Ctrl('f') => Some(Commands::DocumentSearch),
            _ => None,
        },
        EditorMode::Insert => match key {
            Key::Esc => Some(Commands::EditorSwitchMode(EditorMode::Normal)),
            Key::Left => Some(Commands::CursorMoveLeft),
            Key::Up => Some(Commands::CursorMoveUp),
            Key::Down => Some(Commands::CursorMoveDown),
            Key::Right => Some(Commands::CursorMoveRight),
            Key::Backspace => Some(Commands::DocumentDeleteBackward),
            Key::Delete => Some(Commands::DocumentDelete),
            Key::Char(c) => Some(Commands::DocumentInsert(c)),
            _ => None,
        },
        EditorMode::Command => None,
    }
}

/// The editor aggregate. It owns the document, both positions, the mode,
/// the dispatch queue and the quit state; terminal size reaches it as an
/// abstract viewport extent.
pub struct Editor {
    /// The document being edited.
    pub document: Document,
    /// Where the cursor logically stands.
    pub cursor_position: Position,
    /// The viewport's top-left document coordinate.
    pub offset: Position,
    /// The active input mode.
    pub mode: EditorMode,
    /// The serialized command dispatch queue.
    pub command_queue: CommandQueue,
    /// The word being search-highlighted, while a search runs.
    pub highlighted_word: Option<String>,
    /// The current status bar text.
    pub status_message: StatusMessage,
    /// How many more quit requests a dirty document takes.
    pub quit_times: u8,
    /// Set once quit is decided; the run loop then stops.
    pub should_quit: bool,
    /// The viewport's width in columns.
    pub viewport_width: usize,
    /// The viewport's height in rows.
    pub viewport_height: usize,
}

impl Editor {
    /// The document keeps its row invariants and the viewport has extent.
    pub open spec fn wf(self) -> bool {
        &&& self.document.wf()
        &&& self.viewport_width >= 1
        &&& self.viewport_height >= 1
    }

    /// The editor's mathematical state.
    pub open spec fn st(self) -> EdState {
        EdState {
            rows: self.document.texts(),
            dirty: self.document.dirty,
            cx: self.cursor_position.x as int,
            cy: self.cursor_position.y as int,
            ox: self.offset.x as int,
            oy: self.offset.y as int,
            mode: self.mode,
            quit_times: self.quit_times as int,
            should_quit: self.should_quit,
            width: self.viewport_width as int,
            height: self.viewport_height as int,
        }
    }

    /// A fresh editor over a document, in `Normal` mode, at the origin,
    /// with a full quit countdown and an empty dispatch queue.
    pub fn new(document: Document, width: usize, height: usize) -> (r: Editor)
        requires
            document.wf(),
            width >= 1,
            height >= 1,
        ensures
            r.wf(),
            r.document == document,
            r.cursor_position.x == 0 && r.cursor_position.y == 0,
            r.offset.x == 0 && r.offset.y == 0,
            r.mode == EditorMode::Normal,
            r.quit_times == QUIT_TIMES,
            !r.should_quit,
            r.highlighted_word is None,
            queue_view(r.command_queue) == Seq::<Commands>::empty(),
            queue_bound(r.command_queue) == QUEUE_CAPACITY,
            r.viewport_width == width,
            r.viewport_height == height,
    {
        Editor {
            document,
            cursor_position: Position { x: 0, y: 0 },
            offset: Position { x: 0, y: 0 },
            mode: EditorMode::Normal,
            command_queue: CommandQueue::new(QUEUE_CAPACITY),
            highlighted_word: None,
            status_message: StatusMessage::from(String::new()),
            quit_times: QUIT_TIMES,
            should_quit: false,
            viewport_width: width,
            viewport_height: height,
        }
    }

    /// Reads a key event for the active mode; the command it maps to, if
    /// any.
    pub fn interpret_key(&self, key: Key) -> (r: Option<Commands>)
        ensures
            r == spec_interpret(self.mode, key),
    {
        match self.mode {
            EditorMode::Normal => match key {
                Key::Char(c) => {
                    if c == 'i' {
                        Some(Commands::EditorSwitchMode(EditorMode::Insert))
                    } else if c == 'h' {
                        Some(Commands::CursorMoveLeft)
                    } else if c == 'j' {
                        Some(Commands::CursorMoveUp)
                    } else if c == 'k' {
                        Some(Commands::CursorMoveDown)
                    } else if c == 'l' {
                        Some(Commands::CursorMoveRight)
                    } else if c == 'w' {
                        Some(Commands::CursorMoveNextWord)
                    } else if c == 'b' {
                        Some(Commands::CursorMovePrevWord)
                    } else {
                        None
                    }
                },
                Key::Left => Some(Commands::CursorMoveLeft),
                Key::Up => Some(Commands::CursorMoveUp),
                Key::Down => Some(Commands::CursorMoveDown),
                Key::Right => Some(Commands::CursorMoveRight),
                Key::Home => Some(Commands::CursorMoveStart),
                Key::End => Some(Commands::CursorMoveEnd),
                Key::PageUp => Some(Commands::DocumentPageUp),
                Key::PageDown => Some(Commands::DocumentPageDown),
                Key::Ctrl(c) => {
                    if c == 'q' {
                        Some(Commands::DocumentQuit)
                    } else if c == 's' {
                        Some(Commands::DocumentSave)
                    } else if c == 'f' {
                        Some(Commands::DocumentSearch)
                    } else {
                        None
                    }
                },
                _ => None,
            },
            EditorMode::Insert => match key {
                Key::Esc => Some(Commands::EditorSwitchMode(EditorMode::Normal)),
                Key::Left => Some(Commands::CursorMoveLeft),
                Key::Up => Some(Commands::CursorMoveUp),
                Key::Down => Some(Commands::CursorMoveDown),
                Key::Right => Some(Commands::CursorMoveRight),
                Key::Backspace => Some(Commands::DocumentDeleteBackward),
                Key::Delete => Some(Commands::DocumentDelete),
                Key::Char(c) => Some(Commands::DocumentInsert(c)),
                _ => None,
            },
            EditorMode::Command => None,
        }
    }

    /// Hands a command to the dispatch queue; fails with the queue-full
    /// backpressure signal when the bound is reached.
    pub fn push_command(&mut self, command: Commands) -> (r: Result<(), QueueFullError>)
        ensures
            final(self).document == old(self).document,
            final(self).cursor_position == old(self).cursor_position,
            final(self).offset == old(self).offset,
            final(self).mode == old(self).mode,
            final(self).highlighted_word == old(self).highlighted_word,
            final(self).quit_times == old(self).quit_times,
            final(self).should_quit == old(self).should_quit,
            final(self).viewport_width == old(self).viewport_width,
            final(self).viewport_height == old(self).viewport_height,
            queue_bound(final(self).command_queue) == queue_bound(old(self).command_queue),
            queue_view(old(self).command_queue).len() < queue_bound(old(self).command_queue) ==> r
                is Ok && queue_view(final(self).command_queue) == queue_view(
                old(self).command_queue,
            ).push(command),
            queue_view(old(self).command_queue).len() >= queue_bound(old(self).command_queue) ==> r
                is Err && queue_view(final(self).command_queue) == queue_view(
                old(self).command_queue,
            ),
    {
        self.command_queue.enqueue(command)
    }

    /// Adjusts the offset so the cursor lies inside the viewport, moving
    /// each axis exactly as far as needed.
    pub fn scroll(&mut self)
        requires
            old(self).wf(),
        ensures
            final(self).wf(),
            final(self).st() == spec_scroll(old(self).st()),
            final(self).document == old(self).document,
            final(self).cursor_position == old(self).cursor_position,
            final(self).mode == old(self).mode,
            final(self).command_queue == old(self).command_queue,
            final(self).highlighted_word == old(self).highlighted_word,
            final(self).status_message == old(self).status_message,
            final(self).quit_times == old(self).quit_times,
            final(self).should_quit == old(self).should_quit,
    {
        let x = self.cursor_position.x;
        let y = self.cursor_position.y;
        let width = self.viewport_width;
        let height = self.viewport_height;
        if y < self.offset.y {
            self.offset.y = y;
        } else if y - self.offset.y >= height {
            self.offset.y = y - height + 1;
        }
        if x < self.offset.x {
            self.offset.x = x;
        } else if x - self.offset.x >= width {
            self.offset.x = x - width + 1;
        }
        proof {
            assert(final(self).st() =~= spec_scroll(old(self).st()));
        }
    }

    /// Executes one command against the editor: the command's own effect,
    /// then — for any command but quit — a fresh quit countdown, then the
    /// scroll recompute. Returns the interaction the command asks of the
    /// caller. Equal, on the editor's state, to `spec_step`.
    pub fn execute_command(&mut self, c: Commands) -> (a: EditorAction)
        requires
            old(self).wf(),
        ensures
            final(self).wf(),
            final(self).st() == spec_step(old(self).st(), c),
            a == spec_action(c),
            final(self).command_queue == old(self).command_queue,
            final(self).highlighted_word == old(self).highlighted_word,
    {
        let ghost st0 = self.st();
        let mut action = EditorAction::Proceed;
        match c {
            Commands::DocumentInsert(ch) => {
                let p = get_cursor_position(self);
                self.cursor_position = p;
                self.document.insert(&p, ch);
                proof {
                    assert(self.st() =~= (EdState {
                        rows: doc_insert(st0.rows, st0.cy, clamped_x(st0), ch),
                        dirty: if st0.cy > st0.rows.len() {
                            st0.dirty
                        } else {
                            true
                        },
                        cx: clamped_x(st0),
                        ..st0
                    }));
                }
                CursorMoveRightCommand.execute(self);
            },
            Commands::DocumentDelete => {
                let p = get_cursor_position(self);
                self.cursor_position = p;
                self.document.delete(&p);
                proof {
                    assert(self.st() =~= spec_delete_cmd(st0));
                }
            },
            Commands::DocumentDeleteBackward => {
                let p = get_cursor_position(self);
                self.cursor_position = p;
                if p.x == 0 && p.y == 0 {
                    proof {
                        assert(self.st() =~= spec_delete_backward_cmd(st0));
                    }
                } else {
                    proof {
                        assert(self.st() =~= (EdState { cx: clamped_x(st0), ..st0 }));
                    }
                    CursorMoveLeftCommand.execute(self);
                    let p2 = self.cursor_position;
                    self.document.delete(&p2);
                    proof {
                        assert(self.st() =~= spec_delete_backward_cmd(st0));
                    }
                }
            },
            Commands::DocumentPageUp => scroll_up(self),
            Commands::DocumentPageDown => scroll_down(self),
            Commands::DocumentMoveStart => move_start_of_document(self),
            Commands::DocumentMoveEnd => move_end_of_document(self),
            Commands::DocumentSave => {
                action = EditorAction::SaveRequested;
            },
            Commands::DocumentSearch => {
                action = EditorAction::SearchRequested;
            },
            Commands::DocumentQuit => {
                if !self.document.is_dirty() {
                    self.should_quit = true;
                } else if self.quit_times <= 1 {
                    self.quit_times = 0;
                    self.should_quit = true;
                } else {
                    self.quit_times = self.quit_times - 1;
                    self.status_message = StatusMessage::from(
                        String::from_str("WARNING! Unsaved changes. Quit again to discard them."),
                    );
                }
                proof {
                    assert(self.st() =~= spec_quit(st0));
                }
            },
            Commands::CursorMoveUp => CursorMoveUpCommand.execute(self),
            Commands::CursorMoveDown => CursorMoveDownCommand.execute(self),
            Commands::CursorMoveLeft => CursorMoveLeftCommand.execute(self),
            Commands::CursorMoveRight => CursorMoveRightCommand.execute(self),
            Commands::CursorMoveStart => CursorMoveStartCommand.execute(self),
            Commands::CursorMoveEnd => CursorMoveEndCommand.execute(self),
            Commands::CursorMoveNextWord => CursorMoveNextWordCommand.execute(self),
            Commands::CursorMovePrevWord => CursorMovePrevWordCommand.execute(self),
            Commands::EditorSwitchMode(m) => (SetModeCommand { mode: m }).execute(self),
        }
        proof {
            assert(self.st() == spec_apply(st0, c));
        }
        match c {
            Commands::DocumentQuit => {},
            _ => {
                self.quit_times = QUIT_TIMES;
                proof {
                    assert(self.st() =~= (EdState {
                        quit_times: QUIT_TIMES as int,
                        ..spec_apply(st0, c)
                    }));
                }
            },
        }
        self.scroll();
        action
    }

    /// Drains the dispatch queue: commands execute strictly in submission
    /// order, one at a time, each completing before the next is dequeued;
    /// the drain stops once quit is decided or the queue is empty. Returns
    /// the actions the commands asked for, in execution order.
    pub fn run_command_loop(&mut self) -> (acts: Vec<EditorAction>)
        requires
            old(self).wf(),
        ensures
            final(self).wf(),
            final(self).st() == spec_drain(old(self).st(), queue_view(old(self).command_queue)),
            acts@ == spec_drain_acts(old(self).st(), queue_view(old(self).command_queue)),
            queue_view(final(self).command_queue) == spec_drain_rest(
                old(self).st(),
                queue_view(old(self).command_queue),
            ),
            queue_bound(final(self).command_queue) == queue_bound(old(self).command_queue),
            final(self).highlighted_word == old(self).highlighted_word,
    {
        let ghost st0 = self.st();
        let ghost cmds0 = queue_view(self.command_queue);
        let ghost bound0 = queue_bound(self.command_queue);
        let ghost hw0 = self.highlighted_word;
        let mut acts: Vec<EditorAction> = Vec::new();
        loop
            invariant
                self.wf(),
                queue_bound(self.command_queue) == bound0,
                self.highlighted_word == hw0,
                spec_drain(st0, cmds0) == spec_drain(self.st(), queue_view(self.command_queue)),
                spec_drain_acts(st0, cmds0) == acts@ + spec_drain_acts(
                    self.st(),
                    queue_view(self.command_queue),
                ),
                spec_drain_rest(st0, cmds0) == spec_drain_rest(
                    self.st(),
                    queue_view(self.command_queue),
                ),
            ensures
                self.wf(),
                queue_bound(self.command_queue) == bound0,
                self.highlighted_word == hw0,
                self.should_quit || queue_view(self.command_queue).len() == 0,
                spec_drain(st0, cmds0) == spec_drain(self.st(), queue_view(self.command_queue)),
                spec_drain_acts(st0, cmds0) == acts@ + spec_drain_acts(
                    self.st(),
                    queue_view(self.command_queue),
                ),
                spec_drain_rest(st0, cmds0) == spec_drain_rest(
                    self.st(),
                    queue_view(self.command_queue),
                ),
            decreases queue_view(self.command_queue).len(),
        {
            if self.should_quit {
                break ;
            }
            let ghost st_here = self.st();
            let ghost view_here = queue_view(self.command_queue);
            match self.command_queue.dequeue() {
                None => {
                    break ;
                },
                Some(cmd) => {
                    proof {
                        assert(cmd == view_here[0]);
                        assert(spec_drain(st_here, view_here) == spec_drain(
                            spec_step(st_here, cmd),
                            view_here.drop_first(),
                        ));
                        assert(spec_drain_acts(st_here, view_here) == seq![spec_action(cmd)]
                            + spec_drain_acts(spec_step(st_here, cmd), view_here.drop_first()));
                        assert(spec_drain_rest(st_here, view_here) == spec_drain_rest(
                            spec_step(st_here, cmd),
                            view_here.drop_first(),
                        ));
                    }
                    let a = self.execute_command(cmd);
                    acts.push(a);
                    proof {
                        assert(acts@ + spec_drain_acts(self.st(), queue_view(self.command_queue))
                            =~= spec_drain_acts(st0, cmds0));
                    }
                },
            }
        }
        proof {
            assert(spec_drain(self.st(), queue_view(self.command_queue)) == self.st());
            assert(spec_drain_acts(self.st(), queue_view(self.command_queue)) == Seq::<
                EditorAction,
            >::empty());
            assert(spec_drain_rest(self.st(), queue_view(self.command_queue)) == queue_view(
                self.command_queue,
            ));
            assert(acts@ =~= spec_drain_acts(st0, cmds0));
        }
        acts
    }

    /// One step of search-as-you-type: looks the query up from the current
    /// cursor in the given direction; on a hit the cursor jumps there and
    /// the viewport follows; either way the query becomes the highlighted
    /// word. Returns where the hit was, if any, exactly as the document's
    /// own search describes it.
    pub fn incremental_search(&mut self, query: &str, direction: SearchDirection) -> (found: Option<
        Position,
    >)
        requires
            old(self).wf(),
        ensures
            final(self).wf(),
            final(self).document == old(self).document,
            final(self).command_queue == old(self).command_queue,
            final(self).highlighted_word matches Some(w) && w@ == query@,
            ({
                let rows = old(self).document.texts();
                let q = query@;
                let aty = old(self).cursor_position.y as int;
                let atx = old(self).cursor_position.x as int;
                match found {
                    Some(p) => (match direction {
                        SearchDirection::Forward => aty < rows.len() && doc_fwd_match(
                            rows,
                            q,
                            aty,
                            atx,
                            p.y as int,
                            p.x as int,
                        ) && (forall|yy: int, xx: int|
                            #[trigger] doc_fwd_match(rows, q, aty, atx, yy, xx) ==> (yy > p.y || (yy
                                == p.y && xx >= p.x))),
                        SearchDirection::Backward => aty < rows.len() && doc_bwd_match(
                            rows,
                            q,
                            aty,
                            atx,
                            p.y as int,
                            p.x as int,
                        ) && (forall|yy: int, xx: int|
                            #[trigger] doc_bwd_match(rows, q, aty, atx, yy, xx) ==> (yy < p.y || (yy
                                == p.y && xx <= p.x))),
                    }) && final(self).cursor_position == p && final(self).st() == spec_scroll(
                        EdState { cx: p.x as int, cy: p.y as int, ..old(self).st() },
                    ),
                    None => final(self).cursor_position == old(self).cursor_position
                        && final(self).offset == old(self).offset,
                }
            }),
    {
        let found = self.document.find(query, &self.cursor_position, direction);
        match found {
            Some(p) => {
                self.cursor_position = p;
                self.scroll();
            },
            None => {},
        }
        self.highlighted_word = Some(query.to_owned());
        found
    }

    /// Cancels a search: the cursor returns exactly to where it stood when
    /// the search began, the viewport follows, and nothing stays
    /// highlighted.
    pub fn cancel_search(&mut self, old_position: Position)
        requires
            old(self).wf(),
        ensures
            final(self).wf(),
            final(self).document == old(self).document,
            final(self).command_queue == old(self).command_queue,
            final(self).highlighted_word is None,
            final(self).cursor_position == old_position,
            final(self).st() == spec_scroll(
                EdState { cx: old_position.x as int, cy: old_position.y as int, ..old(self).st() },
            ),
    {
        self.cursor_position = old_position;
        self.scroll();
        self.highlighted_word = None;
    }

    /// The half-open range of row indexes inside the viewport.
    pub fn calculate_viewport(&self) -> (r: (usize, usize))
        ensures
            r.0 == self.offset.y,
            r.1 as int == if self.offset.y + self.viewport_height <= self.document.rows@.len() {
                self.offset.y + self.viewport_height
            } else {
                self.document.rows@.len() as int
            },
    {
        let n = self.document.len();
        let start = self.offset.y;
        let end = if start >= n {
            n
        } else if n - start > self.viewport_height {
            start + self.viewport_height
        } else {
            n
        };
        (start, end)
    }
}

/// Law: the dispatcher applies commands strictly in submission order, one
/// at a time: draining the batch `xs` followed by `ys` leaves the same
/// state as draining `xs` alone and then `ys` from the state it produced.
/// In particular each command's effect is `spec_step` applied to the state
/// all earlier commands built — no two commands ever interleave.
pub proof fn lemma_drain_in_order(st: EdState, xs: Seq<Commands>, ys: Seq<Commands>)
    ensures
        spec_drain(st, xs + ys) == spec_drain(spec_drain(st, xs), ys),
    decreases xs.len(),
{
    if xs.len() == 0 {
        assert(xs + ys =~= ys);
    } else if st.should_quit {
    } else {
        assert((xs + ys)[0] == xs[0]);
        assert((xs + ys).drop_first() =~= xs.drop_first() + ys);
        lemma_drain_in_order(spec_step(st, xs[0]), xs.drop_first(), ys);
    }
}

/// Law: with a dirty document and a full countdown, exactly three
/// consecutive quit commands are needed to terminate — the first two warn
/// and count down, the third quits.
pub proof fn lemma_quit_countdown(st: EdState)
    requires
        st.dirty,
        st.quit_times == QUIT_TIMES,
        !st.should_quit,
    ensures
        ({
            let s1 = spec_step(st, Commands::DocumentQuit);
            let s2 = spec_step(s1, Commands::DocumentQuit);
            let s3 = spec_step(s2, Commands::DocumentQuit);
            &&& !s1.should_quit && s1.quit_times == 2
            &&& !s2.should_quit && s2.quit_times == 1
            &&& s3.should_quit
        }),
{
}

/// Law: any successfully processed command other than quit resets the
/// quit countdown to its initial value.
pub proof fn lemma_non_quit_resets_countdown(st: EdState, c: Commands)
    requires
        !(c is DocumentQuit),
    ensures
        spec_step(st, c).quit_times == QUIT_TIMES,
{
}

/// Law: a quit command against a clean document terminates at once.
pub proof fn lemma_clean_quit(st: EdState)
    requires
        !st.dirty,
    ensures
        spec_step(st, Commands::DocumentQuit).should_quit,
{
}

} // verus!
