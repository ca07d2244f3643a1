//! Editing flavours: how a mode switch transforms the editing state. The
//! vim flavour is the one flavour shipped; the editor-side selection
//! adjustment that follows a switch stays with the host, which drives it
//! from the returned outcome.

use vstd::prelude::*;

use crate::modal::{spec_find_index, EditorState, ModalEditor, Mode};

verus! {

/// What a mode switch leaves for the host: the modes and transaction the
/// editor-side selection adjustment needs, and whether to run it at all.
#[derive(Clone, Copy, Debug)]
pub struct SwitchModeOutcome {
    pub last_mode: Mode,
    pub prior_mode: Mode,
    pub prior_tx: Option<u64>,
    pub adjust_selections: bool,
}

/// The state transition every mode switch performs: the new mode is set,
/// the old one remembered, and the operator stack, the transaction in
/// progress and the anchor in progress are cleared.
pub open spec fn switched(st0: EditorState, st1: EditorState, mode: Mode) -> bool {
    &&& st1.mode == mode
    &&& st1.last_mode == st0.mode
    &&& st1.operator_stack@.len() == 0
    &&& st1.current_tx is None
    &&& st1.current_anchor is None
}

/// The vim editing flavour.
pub struct VimFlavour;

impl VimFlavour {
    /// Switches the active editor's mode: records the previous mode,
    /// clears pending operators, transaction and anchor, and consumes the
    /// pending count unless insert mode is entered. The returned outcome
    /// carries what the host needs to adjust the editor's selections;
    /// `leave_selections` asks it not to.
    pub fn switch_mode(
        &self,
        data: &mut ModalEditor,
        mode: Mode,
        leave_selections: bool,
    ) -> (r: SwitchModeOutcome)
        ensures
            r.last_mode == old(data).spec_state().mode,
            r.prior_mode == old(data).spec_state().last_mode,
            r.prior_tx == old(data).spec_state().current_tx,
            r.adjust_selections == !leave_selections,
            switched(old(data).spec_state(), final(data).spec_state(), mode),
            final(data).enabled == old(data).enabled,
            final(data).active_editor == old(data).active_editor,
            final(data).pending_count == if mode != Mode::Insert {
                None::<u64>
            } else {
                old(data).pending_count
            },
            ({
                let s = old(data).editor_states@;
                match old(data).active_editor {
                    Some(id) => final(data).default_state == old(data).default_state
                        && match spec_find_index(s, id) {
                        Some(i) => final(data).editor_states@.len() == s.len() && (forall|j: int|
                            0 <= j < s.len() && j != i ==> final(data).editor_states@[j] == s[j])
                            && final(data).editor_states@[i].0 == id,
                        None => final(data).editor_states@.len() == s.len() + 1 && (forall|j: int|
                            0 <= j < s.len() ==> final(data).editor_states@[j] == s[j])
                            && final(data).editor_states@[s.len() as int].0 == id,
                    },
                    None => final(data).editor_states@ == s,
                }
            }),
            old(data).wf() ==> final(data).wf(),
    {
        let state = data.state();
        let last_mode = state.mode;
        let prior_mode = state.last_mode;
        let prior_tx = state.current_tx;
        let new_state = EditorState {
            mode,
            last_mode,
            operator_stack: Vec::new(),
            current_tx: None,
            current_anchor: None,
        };
        data.set_active_state(new_state);
        if mode != Mode::Insert {
            let _ = data.take_count();
        }
        proof {
            if let Some(id) = old(data).active_editor {
                crate::modal::lemma_find_index_props(old(data).editor_states@, id);
            }
        }
        SwitchModeOutcome { last_mode, prior_mode, prior_tx, adjust_selections: !leave_selections }
    }

    /// The mode this flavour returns to as its base mode.
    pub fn normal_mode(&self) -> (r: Mode)
        ensures
            r == Mode::Normal,
    {
        Mode::Normal
    }
}

} // verus!
