//! Settings of the modal editor: which editing method is enabled and how
//! the system clipboard is used, with the merge logic that layers a user
//! settings file over the shipped defaults.

use vstd::prelude::*;

verus! {

/// Which modal editing method to use; `Off` disables modal editing.
#[derive(Clone, Copy, Debug, PartialEq, Eq, Structural)]
pub enum ModalEditingMethodSetting {
    Off,
    Vim,
}

/// When to use the system clipboard.
#[derive(Clone, Copy, Debug, PartialEq, Eq, Structural)]
pub enum UseSystemClipboard {
    /// Don't use the system clipboard.
    Never,
    /// Use the system clipboard.
    Always,
    /// Use the system clipboard for yank operations.
    OnYank,
}

/// Failure when loading settings.
#[derive(Clone, Copy, Debug, PartialEq, Eq, Structural)]
pub enum SettingsError {
    /// No source, not even the shipped defaults, provided a value.
    MissingDefault,
}

impl ModalEditingMethodSetting {
    /// Loads the effective value from layered sources: a user file that
    /// sets the key wins; otherwise the shipped default applies; a missing
    /// default is an error. The outer `Option` of `user` is absence of a
    /// user file, the inner one absence of the key in it.
    pub fn load(
        user: Option<Option<ModalEditingMethodSetting>>,
        default: Option<ModalEditingMethodSetting>,
    ) -> (r: Result<ModalEditingMethodSetting, SettingsError>)
        ensures
            r == match user {
                Some(Some(v)) => Ok::<ModalEditingMethodSetting, SettingsError>(v),
                _ => match default {
                    Some(d) => Ok::<ModalEditingMethodSetting, SettingsError>(d),
                    None => Err::<ModalEditingMethodSetting, SettingsError>(
                        SettingsError::MissingDefault,
                    ),
                },
            },
    {
        if let Some(Some(user_value)) = user {
            return Ok(user_value);
        }
        match default {
            Some(d) => Ok(d),
            None => Err(SettingsError::MissingDefault),
        }
    }
}

/// The modal editor's own settings, after merging.
#[derive(Clone, Copy, Debug, PartialEq, Eq, Structural)]
pub struct ModalEditorSettings {
    pub use_system_clipboard: UseSystemClipboard,
    pub use_multiline_find: bool,
    pub use_smartcase_find: bool,
}

/// One settings source: each field may be absent.
#[derive(Clone, Copy, Debug, PartialEq, Eq, Structural)]
pub struct ModalEditorSettingsContent {
    pub use_system_clipboard: Option<UseSystemClipboard>,
    pub use_multiline_find: Option<bool>,
    pub use_smartcase_find: Option<bool>,
}

/// Key-wise layering of two sources: the user's value wins where present.
pub open spec fn merged<T>(user: Option<T>, default: Option<T>) -> Option<T> {
    if user is Some {
        user
    } else {
        default
    }
}

impl ModalEditorSettings {
    /// Merges the user source over the default source key by key; every
    /// field must be provided by one of them, else loading fails.
    pub fn load(
        default: ModalEditorSettingsContent,
        user: ModalEditorSettingsContent,
    ) -> (r: Result<ModalEditorSettings, SettingsError>)
        ensures
            r == match (
                merged(user.use_system_clipboard, default.use_system_clipboard),
                merged(user.use_multiline_find, default.use_multiline_find),
                merged(user.use_smartcase_find, default.use_smartcase_find),
            ) {
                (Some(c), Some(m), Some(s)) => Ok::<ModalEditorSettings, SettingsError>(
                    ModalEditorSettings {
                        use_system_clipboard: c,
                        use_multiline_find: m,
                        use_smartcase_find: s,
                    },
                ),
                _ => Err::<ModalEditorSettings, SettingsError>(SettingsError::MissingDefault),
            },
    {
        let clipboard = match user.use_system_clipboard {
            Some(c) => Some(c),
            None => default.use_system_clipboard,
        };
        let multiline = match user.use_multiline_find {
            Some(m) => Some(m),
            None => default.use_multiline_find,
        };
        let smartcase = match user.use_smartcase_find {
            Some(s) => Some(s),
            None => default.use_smartcase_find,
        };
        match (clipboard, multiline, smartcase) {
            (Some(c), Some(m), Some(s)) => Ok(
                ModalEditorSettings {
                    use_system_clipboard: c,
                    use_multiline_find: m,
                    use_smartcase_find: s,
                },
            ),
            _ => Err(SettingsError::MissingDefault),
        }
    }
}

} // verus!
