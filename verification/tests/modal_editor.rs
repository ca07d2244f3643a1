//! Tests for the modal editor state, the vim flavour and the settings.

use uniform_list::flavours::VimFlavour;
use uniform_list::modal::{blurred, focused, init, released, Mode};
use uniform_list::mode_indicator::ModeIndicator;
use uniform_list::settings::{
    ModalEditingMethodSetting, ModalEditorSettings, ModalEditorSettingsContent, SettingsError,
    UseSystemClipboard,
};

#[test]
fn init_starts_disabled_with_default_state() {
    let me = init();
    assert!(!me.enabled);
    assert!(me.active_editor.is_none());
    assert!(me.editor_states.is_empty());
    assert_eq!(me.state().mode, Mode::Normal);
    assert!(me.state().operator_stack.is_empty());
}

#[test]
fn activate_editor_respects_opt_out() {
    let mut me = init();
    assert!(!me.activate_editor(7, false));
    assert!(me.active_editor.is_none());
    assert!(me.activate_editor(7, true));
    assert_eq!(me.active_editor, Some(7));
}

#[test]
fn switch_mode_records_previous_mode_and_clears_operators() {
    let mut me = init();
    me.activate_editor(7, true);
    me.pending_count = Some(3);
    let vim = VimFlavour;
    let outcome = vim.switch_mode(&mut me, Mode::Insert, false);
    assert_eq!(outcome.last_mode, Mode::Normal);
    assert_eq!(outcome.prior_mode, Mode::Normal);
    assert_eq!(outcome.prior_tx, None);
    assert!(outcome.adjust_selections);
    assert_eq!(me.state().mode, Mode::Insert);
    assert_eq!(me.state().last_mode, Mode::Normal);
    assert!(me.state().operator_stack.is_empty());
    // Entering insert mode keeps the pending count.
    assert_eq!(me.pending_count, Some(3));
    // Leaving insert mode consumes it.
    let outcome = vim.switch_mode(&mut me, Mode::Visual, true);
    assert_eq!(outcome.last_mode, Mode::Insert);
    assert_eq!(outcome.prior_mode, Mode::Normal);
    assert!(!outcome.adjust_selections);
    assert_eq!(me.state().mode, Mode::Visual);
    assert_eq!(me.state().last_mode, Mode::Insert);
    assert_eq!(me.pending_count, None);
}

#[test]
fn switch_mode_without_active_editor_uses_default_state() {
    let mut me = init();
    let vim = VimFlavour;
    vim.switch_mode(&mut me, Mode::Replace, false);
    assert!(me.editor_states.is_empty());
    assert_eq!(me.default_state.mode, Mode::Replace);
}

#[test]
fn released_forgets_the_editor_and_returns_its_state() {
    let mut me = init();
    me.activate_editor(7, true);
    let vim = VimFlavour;
    vim.switch_mode(&mut me, Mode::Insert, false);
    assert_eq!(me.editor_states.len(), 1);
    let removed = released(&mut me, 7);
    assert_eq!(removed.map(|s| s.mode), Some(Mode::Insert));
    assert!(me.active_editor.is_none());
    assert!(me.editor_states.is_empty());
    // Releasing an unknown editor changes nothing.
    let removed = released(&mut me, 9);
    assert!(removed.is_none());
}

#[test]
fn released_keeps_other_editors() {
    let mut me = init();
    let vim = VimFlavour;
    me.activate_editor(1, true);
    vim.switch_mode(&mut me, Mode::Insert, false);
    me.activate_editor(2, true);
    vim.switch_mode(&mut me, Mode::Visual, false);
    let removed = released(&mut me, 1);
    assert_eq!(removed.map(|s| s.mode), Some(Mode::Insert));
    assert_eq!(me.active_editor, Some(2));
    assert_eq!(me.editor_states.len(), 1);
    assert_eq!(me.state().mode, Mode::Visual);
}

#[test]
fn focused_is_ignored_while_disabled() {
    let mut me = init();
    assert!(!focused(&mut me, 7, true));
    assert!(me.active_editor.is_none());
    me.enabled = true;
    assert!(focused(&mut me, 7, true));
    assert_eq!(me.active_editor, Some(7));
    assert!(!focused(&mut me, 8, false));
    assert_eq!(me.active_editor, Some(7));
}

#[test]
fn blurring_the_active_editor_drops_pending_operators() {
    let mut me = init();
    me.enabled = true;
    focused(&mut me, 7, true);
    let vim = VimFlavour;
    vim.switch_mode(&mut me, Mode::Normal, false);
    me.editor_states[0].1.operator_stack.push(42);
    // Blurring another editor changes nothing.
    blurred(&mut me, 8);
    assert_eq!(me.state().operator_stack.len(), 1);
    blurred(&mut me, 7);
    assert!(me.state().operator_stack.is_empty());
    assert_eq!(me.state().mode, Mode::Normal);
    assert_eq!(me.active_editor, Some(7));
}

#[test]
fn normal_mode_of_vim_is_normal() {
    assert_eq!(VimFlavour.normal_mode(), Mode::Normal);
    assert!(!Mode::Normal.is_visual());
    assert!(Mode::VisualBlock.is_visual());
}

#[test]
fn line_mode_only_in_visual_line() {
    let mut me = init();
    let vim = VimFlavour;
    vim.switch_mode(&mut me, Mode::VisualLine, false);
    assert!(me.state().line_mode());
    vim.switch_mode(&mut me, Mode::Visual, false);
    assert!(!me.state().line_mode());
}

#[test]
fn mode_indicator_follows_enabled_state() {
    let mut me = init();
    let indicator = ModeIndicator::new(Some(&me));
    assert!(indicator.mode.is_none());
    me.enabled = true;
    let mut indicator = ModeIndicator::new(Some(&me));
    assert_eq!(indicator.mode, Some(Mode::Normal));
    me.enabled = false;
    indicator.update_mode(&me);
    assert!(indicator.mode.is_none());
    let absent = ModeIndicator::new(None);
    assert!(absent.mode.is_none());
    assert!(absent.operators.is_empty());
}

#[test]
fn editing_method_user_value_wins() {
    let loaded = ModalEditingMethodSetting::load(
        Some(Some(ModalEditingMethodSetting::Vim)),
        Some(ModalEditingMethodSetting::Off),
    );
    assert_eq!(loaded, Ok(ModalEditingMethodSetting::Vim));
}

#[test]
fn editing_method_falls_back_to_default() {
    let loaded = ModalEditingMethodSetting::load(None, Some(ModalEditingMethodSetting::Off));
    assert_eq!(loaded, Ok(ModalEditingMethodSetting::Off));
    let loaded = ModalEditingMethodSetting::load(Some(None), Some(ModalEditingMethodSetting::Vim));
    assert_eq!(loaded, Ok(ModalEditingMethodSetting::Vim));
}

#[test]
fn editing_method_missing_default_is_an_error() {
    let loaded = ModalEditingMethodSetting::load(Some(None), None);
    assert_eq!(loaded, Err(SettingsError::MissingDefault));
}

#[test]
fn editor_settings_merge_user_over_default() {
    let default = ModalEditorSettingsContent {
        use_system_clipboard: Some(UseSystemClipboard::Never),
        use_multiline_find: Some(false),
        use_smartcase_find: Some(false),
    };
    let user = ModalEditorSettingsContent {
        use_system_clipboard: Some(UseSystemClipboard::OnYank),
        use_multiline_find: None,
        use_smartcase_find: Some(true),
    };
    let loaded = ModalEditorSettings::load(default, user);
    assert_eq!(
        loaded,
        Ok(ModalEditorSettings {
            use_system_clipboard: UseSystemClipboard::OnYank,
            use_multiline_find: false,
            use_smartcase_find: true,
        })
    );
}

#[test]
fn editor_settings_missing_field_is_an_error() {
    let default = ModalEditorSettingsContent {
        use_system_clipboard: None,
        use_multiline_find: Some(true),
        use_smartcase_find: Some(true),
    };
    let user = ModalEditorSettingsContent {
        use_system_clipboard: None,
        use_multiline_find: None,
        use_smartcase_find: None,
    };
    assert_eq!(
        ModalEditorSettings::load(default, user),
        Err(SettingsError::MissingDefault)
    );
}
