//! The mode-switch command. Mode changes flow through the same serialized
//! dispatch path as edits, so no keystroke ever observes a half-switched
//! state.

use vstd::prelude::*;

use crate::editor::EdState;
use crate::editor::Editor;
use crate::editor::EditorMode;

verus! {

/// Sets the editor's input mode.
pub struct SetModeCommand {
    pub mode: EditorMode,
}

impl SetModeCommand {
    /// Switches to the carried mode; nothing else changes.
    pub fn execute(&self, editor: &mut Editor)
        requires
            old(editor).wf(),
        ensures
            final(editor).wf(),
            final(editor).st() == (EdState { mode: self.mode, ..old(editor).st() }),
            final(editor).document == old(editor).document,
            final(editor).command_queue == old(editor).command_queue,
            final(editor).highlighted_word == old(editor).highlighted_word,
            final(editor).status_message == old(editor).status_message,
    {
        editor.mode = self.mode;
        proof {
            assert(final(editor).st() =~= (EdState { mode: self.mode, ..old(editor).st() }));
        }
    }
}

} // verus!
