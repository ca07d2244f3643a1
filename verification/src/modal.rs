//! Global state of the modal editor host: which editor is active, the
//! per-editor editing state, and the mode-switch transition of the vim
//! flavour. The host's event wiring observes editors and calls in here;
//! everything that touches the editor widget itself stays with the host.

use vstd::prelude::*;

verus! {

/// The editing mode an editor is in.
#[derive(Clone, Copy, Debug, PartialEq, Eq, Structural)]
pub enum Mode {
    Normal,
    Insert,
    Replace,
    Visual,
    VisualLine,
    VisualBlock,
}

impl Mode {
    /// Whether the mode is one of the visual (selection) modes.
    pub open spec fn spec_is_visual(self) -> bool {
        self == Mode::Visual || self == Mode::VisualLine || self == Mode::VisualBlock
    }

    pub fn is_visual(&self) -> (r: bool)
        ensures
            r == self.spec_is_visual(),
    {
        match self {
            Mode::Visual | Mode::VisualLine | Mode::VisualBlock => true,
            _ => false,
        }
    }
}

/// Editing state kept per editor: the current and previous mode, the stack
/// of pending operators (by host-assigned id), and the transaction and
/// anchor of an edit in progress, when one is.
#[derive(Debug)]
pub struct EditorState {
    pub mode: Mode,
    pub last_mode: Mode,
    pub operator_stack: Vec<u64>,
    pub current_tx: Option<u64>,
    pub current_anchor: Option<u64>,
}

impl EditorState {
    /// The state a fresh editor starts in.
    pub open spec fn is_initial(self) -> bool {
        &&& self.mode == Mode::Normal
        &&& self.last_mode == Mode::Normal
        &&& self.operator_stack@.len() == 0
        &&& self.current_tx is None
        &&& self.current_anchor is None
    }

    pub fn initial() -> (r: EditorState)
        ensures
            r.is_initial(),
    {
        EditorState {
            mode: Mode::Normal,
            last_mode: Mode::Normal,
            operator_stack: Vec::new(),
            current_tx: None,
            current_anchor: None,
        }
    }

    /// Whether the editor's selections are put in line mode when its
    /// settings are synced from this state.
    pub fn line_mode(&self) -> (r: bool)
        ensures
            r == (self.mode == Mode::VisualLine),
    {
        self.mode == Mode::VisualLine
    }
}

/// Index of the first entry with key `id`, if any.
pub open spec fn spec_find_index(s: Seq<(u64, EditorState)>, id: u64) -> Option<int>
    decreases s.len(),
{
    if s.len() == 0 {
        None
    } else if s[0].0 == id {
        Some(0int)
    } else {
        match spec_find_index(s.drop_first(), id) {
            Some(i) => Some(i + 1),
            None => None,
        }
    }
}

/// What `spec_find_index` returns: the first matching index when a match
/// exists, `None` exactly when no entry has the key.
pub proof fn lemma_find_index_props(s: Seq<(u64, EditorState)>, id: u64)
    ensures
        match spec_find_index(s, id) {
            Some(i) => 0 <= i < s.len() && s[i].0 == id && forall|j: int|
                0 <= j < i ==> s[j].0 != id,
            None => forall|j: int| 0 <= j < s.len() ==> s[j].0 != id,
        },
    decreases s.len(),
{
    if s.len() > 0 && s[0].0 != id {
        lemma_find_index_props(s.drop_first(), id);
        match spec_find_index(s, id) {
            Some(i) => {
                assert(s.drop_first()[i - 1] == s[i]);
                assert forall|j: int| 0 <= j < i implies s[j].0 != id by {
                    if j > 0 {
                        assert(s.drop_first()[j - 1] == s[j]);
                    }
                }
            },
            None => {
                assert forall|j: int| 0 <= j < s.len() implies s[j].0 != id by {
                    if j > 0 {
                        assert(s.drop_first()[j - 1] == s[j]);
                    }
                }
            },
        }
    }
}

/// `spec_find_index` finds `i` when `i` is the first match.
pub proof fn lemma_find_index_at(s: Seq<(u64, EditorState)>, id: u64, i: int)
    requires
        0 <= i < s.len(),
        s[i].0 == id,
        forall|j: int| 0 <= j < i ==> s[j].0 != id,
    ensures
        spec_find_index(s, id) == Some(i),
    decreases i,
{
    if i > 0 {
        lemma_find_index_at(s.drop_first(), id, i - 1);
    }
}

/// Position of the first entry for `id`, with its defining facts.
fn find_state_index(states: &Vec<(u64, EditorState)>, id: u64) -> (r: Option<usize>)
    ensures
        match r {
            Some(i) => i < states@.len() && states@[i as int].0 == id && spec_find_index(
                states@,
                id,
            ) == Some(i as int),
            None => spec_find_index(states@, id) is None,
        },
{
    let mut i: usize = 0;
    while i < states.len()
        invariant
            i <= states@.len(),
            forall|j: int| 0 <= j < i ==> states@[j].0 != id,
        decreases states@.len() - i,
    {
        if states[i].0 == id {
            proof {
                lemma_find_index_at(states@, id, i as int);
            }
            return Some(i);
        }
        i = i + 1;
    }
    proof {
        lemma_find_index_props(states@, id);
    }
    None
}

/// The modal editor's global state: whether modal editing is enabled, the
/// editor that currently has focus, one `EditorState` per known editor
/// (keyed by the host's entity id, each id at most once), the state used
/// before an editor is known, and a pending numeric count.
pub struct ModalEditor {
    pub enabled: bool,
    pub active_editor: Option<u64>,
    pub editor_states: Vec<(u64, EditorState)>,
    pub default_state: EditorState,
    pub pending_count: Option<u64>,
}

impl ModalEditor {
    /// Each editor id owns at most one entry.
    pub open spec fn wf(self) -> bool {
        forall|a: int, b: int|
            0 <= a < b < self.editor_states@.len() ==> self.editor_states@[a].0
                != self.editor_states@[b].0
    }

    /// The state governing the active editor: its own entry when one
    /// exists, the default state otherwise.
    pub open spec fn spec_state(self) -> EditorState {
        match self.active_editor {
            Some(id) => match spec_find_index(self.editor_states@, id) {
                Some(i) => self.editor_states@[i].1,
                None => self.default_state,
            },
            None => self.default_state,
        }
    }

    /// Returns the state of the active editor.
    pub fn state(&self) -> (r: &EditorState)
        ensures
            *r == self.spec_state(),
    {
        if let Some(id) = self.active_editor {
            if let Some(i) = find_state_index(&self.editor_states, id) {
                return &self.editor_states[i].1;
            }
        }
        &self.default_state
    }

    /// Focus moved to an editor. An editor that opted out of modal editing
    /// is ignored; otherwise it becomes the active editor and the host must
    /// re-sync the editor's settings from its state.
    pub fn activate_editor(&mut self, editor_id: u64, uses_modal_editing: bool) -> (sync: bool)
        ensures
            !uses_modal_editing ==> *final(self) == *old(self) && !sync,
            uses_modal_editing ==> sync && final(self).active_editor == Some(editor_id)
                && final(self).enabled == old(self).enabled && final(self).editor_states
                == old(self).editor_states && final(self).default_state == old(self).default_state
                && final(self).pending_count == old(self).pending_count,
    {
        if !uses_modal_editing {
            return false;
        }
        self.active_editor = Some(editor_id);
        true
    }

    /// Writes `new_state` where the active editor's state lives: over its
    /// entry, as a fresh entry when it has none, or into the default state
    /// when no editor is active.
    pub fn set_active_state(&mut self, new_state: EditorState)
        ensures
            final(self).enabled == old(self).enabled,
            final(self).active_editor == old(self).active_editor,
            final(self).pending_count == old(self).pending_count,
            final(self).spec_state() == new_state,
            ({
                let s = old(self).editor_states@;
                match old(self).active_editor {
                    Some(id) => final(self).default_state == old(self).default_state
                        && match spec_find_index(s, id) {
                        Some(i) => final(self).editor_states@ == s.update(i, (id, new_state)),
                        None => final(self).editor_states@ == s.push((id, new_state)),
                    },
                    None => final(self).editor_states@ == s && final(self).default_state
                        == new_state,
                }
            }),
            old(self).wf() ==> final(self).wf(),
    {
        let ghost s = self.editor_states@;
        match self.active_editor {
            Some(id) => {
                match find_state_index(&self.editor_states, id) {
                    Some(i) => {
                        proof {
                            lemma_find_index_props(s, id);
                        }
                        let entry = &mut self.editor_states[i];
                        entry.1 = new_state;
                        proof {
                            assert(self.editor_states@ == s.update(i as int, (id, new_state)));
                            assert(forall|j: int|
                                0 <= j < s.len() ==> self.editor_states@[j].0 == s[j].0);
                            lemma_find_index_at(self.editor_states@, id, i as int);
                        }
                    },
                    None => {
                        proof {
                            lemma_find_index_props(s, id);
                        }
                        self.editor_states.push((id, new_state));
                        proof {
                            lemma_find_index_at(self.editor_states@, id, s.len() as int);
                        }
                    },
                }
            },
            None => {
                self.default_state = new_state;
            },
        }
    }

    /// Clears the pending numeric count, returning it.
    pub fn take_count(&mut self) -> (r: Option<u64>)
        ensures
            r == old(self).pending_count,
            final(self).pending_count is None,
            final(self).enabled == old(self).enabled,
            final(self).active_editor == old(self).active_editor,
            final(self).editor_states == old(self).editor_states,
            final(self).default_state == old(self).default_state,
    {
        let r = self.pending_count;
        self.pending_count = None;
        r
    }
}

/// The initial global state: modal editing disabled until the settings
/// enable it, no editor known, every state at its defaults.
pub fn init() -> (r: ModalEditor)
    ensures
        !r.enabled,
        r.active_editor is None,
        r.editor_states@.len() == 0,
        r.default_state.is_initial(),
        r.pending_count is None,
        r.wf(),
{
    ModalEditor {
        enabled: false,
        active_editor: None,
        editor_states: Vec::new(),
        default_state: EditorState::initial(),
        pending_count: None,
    }
}

/// An editor was destroyed: forget that it was active and drop its state
/// entry, returning the dropped state.
pub fn released(modal_editor: &mut ModalEditor, entity_id: u64) -> (removed: Option<EditorState>)
    ensures
        final(modal_editor).enabled == old(modal_editor).enabled,
        final(modal_editor).default_state == old(modal_editor).default_state,
        final(modal_editor).pending_count == old(modal_editor).pending_count,
        final(modal_editor).active_editor == if old(modal_editor).active_editor == Some(entity_id) {
            None::<u64>
        } else {
            old(modal_editor).active_editor
        },
        ({
            let s = old(modal_editor).editor_states@;
            match spec_find_index(s, entity_id) {
                Some(i) => final(modal_editor).editor_states@ == s.remove(i) && removed == Some(
                    s[i].1,
                ),
                None => final(modal_editor).editor_states@ == s && removed is None,
            }
        }),
        old(modal_editor).wf() ==> final(modal_editor).wf(),
{
    if let Some(prev) = modal_editor.active_editor {
        if prev == entity_id {
            modal_editor.active_editor = None;
        }
    }
    match find_state_index(&modal_editor.editor_states, entity_id) {
        Some(i) => {
            let (_, state) = modal_editor.editor_states.remove(i);
            Some(state)
        },
        None => None,
    }
}

/// An editor gained focus. With modal editing disabled nothing happens;
/// otherwise the editor is activated unless it opted out, and the caller
/// learns whether to re-sync the editor's settings.
pub fn focused(
    modal_editor: &mut ModalEditor,
    editor_id: u64,
    uses_modal_editing: bool,
) -> (sync: bool)
    ensures
        !(old(modal_editor).enabled && uses_modal_editing) ==> {
            &&& *final(modal_editor) == *old(modal_editor)
            &&& !sync
        },
        old(modal_editor).enabled && uses_modal_editing ==> {
            &&& sync
            &&& final(modal_editor).active_editor == Some(editor_id)
            &&& final(modal_editor).enabled == old(modal_editor).enabled
            &&& final(modal_editor).editor_states == old(modal_editor).editor_states
            &&& final(modal_editor).default_state == old(modal_editor).default_state
            &&& final(modal_editor).pending_count == old(modal_editor).pending_count
        },
{
    if !modal_editor.enabled {
        return false;
    }
    modal_editor.activate_editor(editor_id, uses_modal_editing)
}

/// The state transition of losing focus: everything is kept but the
/// pending operators, which are discarded.
pub open spec fn operators_cleared(st0: EditorState, st1: EditorState) -> bool {
    &&& st1.mode == st0.mode
    &&& st1.last_mode == st0.last_mode
    &&& st1.operator_stack@.len() == 0
    &&& st1.current_tx == st0.current_tx
    &&& st1.current_anchor == st0.current_anchor
}

/// An editor lost focus: when modal editing is enabled and the blurred
/// editor is the active one, its pending operators are discarded. The
/// cursor-shape change on the editor widget itself stays with the host.
pub fn blurred(modal_editor: &mut ModalEditor, editor_id: u64)
    ensures
        !(old(modal_editor).enabled && old(modal_editor).active_editor == Some(editor_id))
            ==> *final(modal_editor) == *old(modal_editor),
        old(modal_editor).enabled && old(modal_editor).active_editor == Some(editor_id) ==> {
            &&& operators_cleared(old(modal_editor).spec_state(), final(modal_editor).spec_state())
            &&& final(modal_editor).enabled == old(modal_editor).enabled
            &&& final(modal_editor).active_editor == old(modal_editor).active_editor
            &&& final(modal_editor).pending_count == old(modal_editor).pending_count
            &&& final(modal_editor).default_state == old(modal_editor).default_state
            &&& (old(modal_editor).wf() ==> final(modal_editor).wf())
        },
{
    if !modal_editor.enabled {
        return;
    }
    let do_clear = match modal_editor.active_editor {
        Some(prev) => prev == editor_id,
        None => false,
    };
    if do_clear {
        let state = modal_editor.state();
        let new_state = EditorState {
            mode: state.mode,
            last_mode: state.last_mode,
            operator_stack: Vec::new(),
            current_tx: state.current_tx,
            current_anchor: state.current_anchor,
        };
        modal_editor.set_active_state(new_state);
    }
}

} // verus!
