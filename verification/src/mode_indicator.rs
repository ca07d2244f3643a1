//! The mode indicator shown in the status bar: the active mode of the
//! modal editor and its pending operators, when modal editing is enabled.
//! Rendering the label is the host's job; this holds what it renders.

use vstd::prelude::*;

use crate::modal::{ModalEditor, Mode};

verus! {

/// Status-bar state: the mode to display, if any, and the ids of the
/// pending operators rendered beside it.
#[derive(Debug)]
pub struct ModeIndicator {
    pub mode: Option<Mode>,
    pub operators: Vec<u64>,
}

/// Copies the operator ids so the indicator owns its snapshot.
fn copy_operators(v: &Vec<u64>) -> (r: Vec<u64>)
    ensures
        r@ == v@,
{
    let mut r: Vec<u64> = Vec::new();
    let mut i: usize = 0;
    while i < v.len()
        invariant
            i <= v@.len(),
            r@ == v@.subrange(0, i as int),
        decreases v@.len() - i,
    {
        r.push(v[i]);
        proof {
            assert(r@ =~= v@.subrange(0, i + 1));
        }
        i = i + 1;
    }
    proof {
        assert(r@ =~= v@);
    }
    r
}

impl ModeIndicator {
    /// A fresh indicator. Hosts without a modal editor (as in some test
    /// setups) pass `None` and the indicator shows nothing.
    pub fn new(modal_editor: Option<&ModalEditor>) -> (r: ModeIndicator)
        ensures
            match modal_editor {
                Some(me) => (me.enabled ==> r.mode == Some(me.spec_state().mode) && r.operators@
                    == me.spec_state().operator_stack@) && (!me.enabled ==> r.mode is None
                    && r.operators@.len() == 0),
                None => r.mode is None && r.operators@.len() == 0,
            },
    {
        let mut this = ModeIndicator { mode: None, operators: Vec::new() };
        if let Some(me) = modal_editor {
            this.update_mode(me);
        }
        this
    }

    /// Refreshes from the modal editor: shows the active state's mode and
    /// operators when modal editing is enabled, nothing otherwise.
    pub fn update_mode(&mut self, modal_editor: &ModalEditor)
        ensures
            modal_editor.enabled ==> final(self).mode == Some(modal_editor.spec_state().mode)
                && final(self).operators@ == modal_editor.spec_state().operator_stack@,
            !modal_editor.enabled ==> final(self).mode is None && final(self).operators == old(
                self,
            ).operators,
    {
        if modal_editor.enabled {
            let state = modal_editor.state();
            self.mode = Some(state.mode);
            self.operators = copy_operators(&state.operator_stack);
        } else {
            self.mode = None;
        }
    }
}

} // verus!
