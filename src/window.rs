//! What the global shortcut does to the launcher's window.
use vstd::prelude::*;

verus! {

/// The host's response to the global shortcut.
#[derive(Debug, Clone, Copy, PartialEq, Eq, Structural)]
pub enum ShortcutAction {
    /// A key release: nothing happens.
    Nothing,
    /// The window is hidden: show it, focus it and put the cursor in search.
    ShowAndSearch,
    /// The window is shown but another has the focus: focus it.
    Focus,
    /// The window is shown and focused: toggle the search field.
    ToggleSearch,
}

pub open spec fn action_for(pressed: bool, visible: bool, focused: bool) -> ShortcutAction {
    if !pressed {
        ShortcutAction::Nothing
    } else if !visible {
        ShortcutAction::ShowAndSearch
    } else if !focused {
        ShortcutAction::Focus
    } else {
        ShortcutAction::ToggleSearch
    }
}

/// What the shortcut does, from whether the key went down and the window's
/// state.
pub fn shortcut_action(pressed: bool, visible: bool, focused: bool) -> (r: ShortcutAction)
    ensures
        r == action_for(pressed, visible, focused),
{
    if !pressed {
        ShortcutAction::Nothing
    } else if !visible {
        ShortcutAction::ShowAndSearch
    } else if !focused {
        ShortcutAction::Focus
    } else {
        ShortcutAction::ToggleSearch
    }
}

} // verus!
