//! Editing state: the current mode and the note selection.

use vstd::prelude::*;

use crate::music::NoteId;

verus! {

#[derive(Clone, Copy, Debug, PartialEq, Eq, Structural)]
pub enum EditMode {
    Inactive,
    NoteSelected(NoteId),
}

impl Default for EditMode {
    fn default() -> (mode: Self)
        ensures
            mode == EditMode::Inactive,
    {
        EditMode::Inactive
    }
}

#[derive(Clone, Copy, Debug, PartialEq, Eq, Structural)]
pub struct SelectionState {
    pub selected_note: Option<NoteId>,
    pub focus: bool,
}

impl Default for SelectionState {
    fn default() -> (state: Self)
        ensures
            state.selected_note is None,
            !state.focus,
    {
        SelectionState { selected_note: None, focus: false }
    }
}

impl SelectionState {
    /// Selects the given note (or clears the selection); the visual
    /// shell then mirrors the choice onto its note list.
    pub fn select(&mut self, note_id: Option<NoteId>)
        ensures
            final(self).selected_note == note_id,
            final(self).focus == old(self).focus,
    {
        self.selected_note = note_id;
    }
}

} // verus!
