//! What a press of the panel hotkey does.
use crate::window::{HotkeyModeState, SelectedItemState};
use vstd::prelude::*;

verus! {

/// What the caller does after a hotkey event.
#[derive(Debug, Clone, Copy, PartialEq, Eq, Structural)]
pub enum HotkeyAction {
    /// The event was a key release: nothing.
    Ignore,
    /// In hotkey mode: move the highlight to the next item.
    CycleNext,
    /// Toggle the panel; `started_hotkey_mode` says whether hotkey mode was
    /// entered (the interface is told so).
    Toggle { started_hotkey_mode: bool },
}

/// Handles one event of the panel hotkey. `panel_visible` is whether the
/// panel shows now, `sticky` the sticky-mode setting, and `newest_item_id`
/// the identifier of the newest history item, if any. Opening the panel
/// outside sticky mode enters hotkey mode and selects the newest item.
pub fn on_hotkey_event(
    mode: &mut HotkeyModeState,
    selected: &mut SelectedItemState,
    pressed: bool,
    panel_visible: bool,
    sticky: bool,
    newest_item_id: Option<String>,
) -> (r: HotkeyAction)
    ensures
        !pressed ==> r == HotkeyAction::Ignore && final(mode)@ == old(mode)@ && final(selected)@
            == old(selected)@,
        pressed && old(mode)@ ==> r == HotkeyAction::CycleNext && final(mode)@ && final(selected)@
            == old(selected)@,
        pressed && !old(mode)@ ==> {
            let opening = !panel_visible && !sticky;
            &&& r == (HotkeyAction::Toggle { started_hotkey_mode: opening })
            &&& final(mode)@ == opening
            &&& final(selected)@ == (if opening && newest_item_id is Some {
                newest_item_id.deep_view()
            } else {
                old(selected)@
            })
        },
{
    if !pressed {
        return HotkeyAction::Ignore;
    }
    if mode.is_active() {
        return HotkeyAction::CycleNext;
    }
    let is_opening = !panel_visible;
    if is_opening && !sticky {
        mode.enter();
        if let Some(id) = newest_item_id {
            selected.set(id);
        }
        return HotkeyAction::Toggle { started_hotkey_mode: true };
    }
    HotkeyAction::Toggle { started_hotkey_mode: false }
}

} // verus!
