//! The modifier-release watcher of hotkey mode: polled every few
//! milliseconds, it pastes the selected item when the modifiers are released
//! or Return is pressed, and hides the panel on Escape.
use crate::window::{
    command_held, shift_held, HotkeyModeState, SelectedItemState, MASK_COMMAND, MASK_SHIFT,
};
use vstd::prelude::*;

verus! {

/// One poll of the keyboard: whether Escape and Return are down, and the
/// modifier flags.
pub struct KeyPoll {
    pub escape: bool,
    pub return_key: bool,
    pub flags: u64,
}

/// What the watcher asks its caller to do after a poll.
pub enum WatchAction {
    /// Nothing.
    Idle,
    /// Hide the panel.
    Hide,
    /// Paste the item with this identifier.
    Paste(String),
    /// The modifiers were released: wait a moment, read Escape again and
    /// call `ReleaseWatcher::after_release`.
    RecheckEscape,
}

/// The mathematical value of a `WatchAction`.
pub enum WatchActionView {
    Idle,
    Hide,
    Paste(Seq<char>),
    RecheckEscape,
}

impl View for WatchAction {
    type V = WatchActionView;

    open spec fn view(&self) -> WatchActionView {
        match self {
            WatchAction::Idle => WatchActionView::Idle,
            WatchAction::Hide => WatchActionView::Hide,
            WatchAction::Paste(id) => WatchActionView::Paste(id@),
            WatchAction::RecheckEscape => WatchActionView::RecheckEscape,
        }
    }
}

/// The state of the watcher between polls: whether Return was down at the
/// previous poll, so that holding it pastes once.
pub struct ReleaseWatcher {
    pub prev_return: bool,
}

/// The watcher's state and hotkey state after a poll.
pub struct TickOutcome {
    pub prev_return: bool,
    pub active: bool,
    pub selected: Option<Seq<char>>,
    pub action: WatchActionView,
}

/// The outcome of one poll. Outside hotkey mode nothing happens. Escape
/// leaves hotkey mode, clears the selection and hides. A fresh press of
/// Return (settings closed) leaves hotkey mode and pastes the selection.
/// With Command and Shift both up (settings closed) the caller is asked to
/// check Escape again.
pub open spec fn tick_outcome(
    prev_return: bool,
    active: bool,
    selected: Option<Seq<char>>,
    settings_open: bool,
    keys: KeyPoll,
) -> TickOutcome {
    if !active {
        TickOutcome { prev_return: false, active, selected, action: WatchActionView::Idle }
    } else if keys.escape {
        TickOutcome { prev_return: false, active: false, selected: None, action: WatchActionView::Hide }
    } else if keys.return_key && !prev_return && !settings_open {
        TickOutcome {
            prev_return: true,
            active: false,
            selected: None,
            action: match selected {
                Some(id) => WatchActionView::Paste(id),
                None => WatchActionView::Idle,
            },
        }
    } else if keys.flags & MASK_COMMAND == 0 && keys.flags & MASK_SHIFT == 0 && !settings_open {
        TickOutcome {
            prev_return: keys.return_key,
            active,
            selected,
            action: WatchActionView::RecheckEscape,
        }
    } else {
        TickOutcome { prev_return: keys.return_key, active, selected, action: WatchActionView::Idle }
    }
}

/// The hotkey state after the modifiers were released, and what to do.
pub struct ReleaseOutcome {
    pub active: bool,
    pub selected: Option<Seq<char>>,
    pub action: WatchActionView,
}

/// The outcome of the second look after the modifiers were released: still
/// in hotkey mode without Escape, paste the selection (hide when there is
/// none); with Escape, cancel and hide; otherwise nothing.
pub open spec fn release_outcome(active: bool, selected: Option<Seq<char>>, escape: bool) -> ReleaseOutcome {
    if active && !escape {
        ReleaseOutcome {
            active: false,
            selected: None,
            action: match selected {
                Some(id) => WatchActionView::Paste(id),
                None => WatchActionView::Hide,
            },
        }
    } else if escape && active {
        ReleaseOutcome { active: false, selected: None, action: WatchActionView::Hide }
    } else {
        ReleaseOutcome { active, selected, action: WatchActionView::Idle }
    }
}

impl ReleaseWatcher {
    /// A watcher that has seen no Return press.
    pub fn new() -> (r: Self)
        ensures
            !r.prev_return,
    {
        ReleaseWatcher { prev_return: false }
    }

    /// Handles one poll of the keyboard.
    pub fn tick(
        &mut self,
        mode: &mut HotkeyModeState,
        selected: &mut SelectedItemState,
        settings_open: bool,
        keys: KeyPoll,
    ) -> (r: WatchAction)
        ensures
            ({
                let o = tick_outcome(old(self).prev_return, old(mode)@, old(selected)@, settings_open, keys);
                &&& final(self).prev_return == o.prev_return
                &&& final(mode)@ == o.active
                &&& final(selected)@ == o.selected
                &&& r@ == o.action
            }),
    {
        if !mode.is_active() {
            self.prev_return = false;
            return WatchAction::Idle;
        }
        if keys.escape {
            mode.exit();
            selected.take();
            self.prev_return = false;
            return WatchAction::Hide;
        }
        let return_now = keys.return_key;
        if return_now && !self.prev_return && !settings_open {
            mode.exit();
            let picked = selected.take();
            self.prev_return = return_now;
            return match picked {
                Some(id) => WatchAction::Paste(id),
                None => WatchAction::Idle,
            };
        }
        self.prev_return = return_now;
        if !command_held(keys.flags) && !shift_held(keys.flags) && !settings_open {
            return WatchAction::RecheckEscape;
        }
        WatchAction::Idle
    }

    /// Handles the second look at Escape after the modifiers were released.
    pub fn after_release(
        mode: &mut HotkeyModeState,
        selected: &mut SelectedItemState,
        escape: bool,
    ) -> (r: WatchAction)
        ensures
            ({
                let o = release_outcome(old(mode)@, old(selected)@, escape);
                &&& final(mode)@ == o.active
                &&& final(selected)@ == o.selected
                &&& r@ == o.action
            }),
    {
        if mode.is_active() && !escape {
            mode.exit();
            match selected.take() {
                Some(id) => WatchAction::Paste(id),
                None => WatchAction::Hide,
            }
        } else if escape && mode.is_active() {
            mode.exit();
            selected.take();
            WatchAction::Hide
        } else {
            WatchAction::Idle
        }
    }
}

/// A paste consumes hotkey mode and the selection: after any poll or
/// release check that pastes, hotkey mode is off and nothing is selected,
/// so the next poll does nothing, whatever the keys, and cannot paste again.
pub proof fn law_paste_happens_once(
    prev_return: bool,
    active: bool,
    selected: Option<Seq<char>>,
    settings_open: bool,
    keys: KeyPoll,
    next_settings_open: bool,
    next_keys: KeyPoll,
)
    requires
        tick_outcome(prev_return, active, selected, settings_open, keys).action is Paste,
    ensures
        ({
            let o = tick_outcome(prev_return, active, selected, settings_open, keys);
            let n = tick_outcome(o.prev_return, o.active, o.selected, next_settings_open, next_keys);
            &&& !o.active
            &&& o.selected is None
            &&& n.action is Idle
            &&& !n.active
            &&& n.selected is None
        }),
{
}

/// The same for the release check: once it pastes, the next poll does
/// nothing.
pub proof fn law_release_paste_happens_once(
    active: bool,
    selected: Option<Seq<char>>,
    escape: bool,
    prev_return: bool,
    next_settings_open: bool,
    next_keys: KeyPoll,
)
    requires
        release_outcome(active, selected, escape).action is Paste,
    ensures
        ({
            let o = release_outcome(active, selected, escape);
            let n = tick_outcome(prev_return, o.active, o.selected, next_settings_open, next_keys);
            &&& !o.active
            &&& o.selected is None
            &&& n.action is Idle
        }),
{
}

/// Escape in hotkey mode always cancels: hotkey mode ends, the selection is
/// cleared and the panel hides, whatever else is pressed.
pub proof fn law_escape_cancels(
    prev_return: bool,
    selected: Option<Seq<char>>,
    settings_open: bool,
    keys: KeyPoll,
)
    requires
        keys.escape,
    ensures
        ({
            let o = tick_outcome(prev_return, true, selected, settings_open, keys);
            &&& !o.active
            &&& o.selected is None
            &&& o.action is Hide
        }),
{
}

/// Holding Return pastes at most once: a poll that sees Return still down
/// from the previous poll does not paste.
pub proof fn law_return_pastes_on_press_only(
    active: bool,
    selected: Option<Seq<char>>,
    settings_open: bool,
    keys: KeyPoll,
)
    requires
        keys.return_key,
    ensures
        !(tick_outcome(true, active, selected, settings_open, keys).action is Paste),
{
}


/// Once a paste has finished (hotkey mode ended, the pasted item selected
/// again), the watcher does nothing on its next poll, so the restored
/// selection is not pasted again.
pub proof fn law_finished_paste_is_not_repeated(
    prev_return: bool,
    id: Seq<char>,
    settings_open: bool,
    keys: KeyPoll,
)
    ensures
        tick_outcome(prev_return, false, Some(id), settings_open, keys).action is Idle,
        tick_outcome(prev_return, false, Some(id), settings_open, keys).selected == Some(id),
{
}

/// While Command (flag bit 0x100000) or Shift (flag bit 0x20000) is still
/// held in hotkey mode, a poll without Escape and without a fresh Return
/// press does nothing: hotkey mode and the selection stay.
pub proof fn law_held_modifier_waits(
    prev_return: bool,
    selected: Option<Seq<char>>,
    settings_open: bool,
    keys: KeyPoll,
)
    requires
        !keys.escape,
        !(keys.return_key && !prev_return && !settings_open),
        keys.flags & 0x100000u64 != 0 || keys.flags & 0x20000u64 != 0,
    ensures
        ({
            let o = tick_outcome(prev_return, true, selected, settings_open, keys);
            &&& o.action is Idle
            &&& o.active
            &&& o.selected == selected
        }),
{
}

/// Once Command and Shift are both released in hotkey mode (settings closed,
/// no Escape, no fresh Return press), the poll asks for the release check,
/// keeping hotkey mode and the selection for it.
pub proof fn law_released_modifiers_ask_for_the_release_check(
    prev_return: bool,
    selected: Option<Seq<char>>,
    keys: KeyPoll,
)
    requires
        !keys.escape,
        !(keys.return_key && !prev_return),
        keys.flags & 0x100000u64 == 0,
        keys.flags & 0x20000u64 == 0,
    ensures
        ({
            let o = tick_outcome(prev_return, true, selected, false, keys);
            &&& o.action is RecheckEscape
            &&& o.active
            &&& o.selected == selected
        }),
{
}

} // verus!
