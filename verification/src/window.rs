//! The panel's small pieces of shared state: the hide guard, hotkey mode,
//! whether settings are open, the selected item, and the modifier keys.
use vstd::prelude::*;

verus! {

/// The label of the main window.
pub const MAIN_WINDOW_LABEL: &'static str = "main";

/// Guards against re-entrant panel hide (ordering the panel out makes it
/// resign key, which would hide it again).
pub struct PanelHideGuard {
    is_hiding: bool,
}

impl View for PanelHideGuard {
    type V = bool;

    /// Whether a hide is under way.
    closed spec fn view(&self) -> bool {
        self.is_hiding
    }
}

impl PanelHideGuard {
    /// A guard with no hide under way.
    pub fn new() -> (r: Self)
        ensures
            !r@,
    {
        PanelHideGuard { is_hiding: false }
    }

    /// Marks a hide as under way.
    pub fn set_hiding(&mut self)
        ensures
            final(self)@,
    {
        self.is_hiding = true;
    }

    /// Marks the hide as done.
    pub fn clear_hiding(&mut self)
        ensures
            !final(self)@,
    {
        self.is_hiding = false;
    }

    /// Whether a hide is under way.
    pub fn is_hiding(&self) -> (r: bool)
        ensures
            r == self@,
    {
        self.is_hiding
    }
}

/// Tracks whether we're in hotkey mode (modifiers held after the panel
/// hotkey). While it is active the panel does not hide on focus loss.
pub struct HotkeyModeState {
    is_active: bool,
}

impl View for HotkeyModeState {
    type V = bool;

    /// Whether hotkey mode is active.
    closed spec fn view(&self) -> bool {
        self.is_active
    }
}

impl HotkeyModeState {
    /// Hotkey mode, not active.
    pub fn new() -> (r: Self)
        ensures
            !r@,
    {
        HotkeyModeState { is_active: false }
    }

    /// Enters hotkey mode.
    pub fn enter(&mut self)
        ensures
            final(self)@,
    {
        self.is_active = true;
    }

    /// Leaves hotkey mode.
    pub fn exit(&mut self)
        ensures
            !final(self)@,
    {
        self.is_active = false;
    }

    /// Whether hotkey mode is active.
    pub fn is_active(&self) -> (r: bool)
        ensures
            r == self@,
    {
        self.is_active
    }
}

/// Tracks whether the settings panel is open (synced from the interface).
/// The modifier-release watcher does not dismiss the window while it is.
pub struct SettingsOpenState {
    is_open: bool,
}

impl View for SettingsOpenState {
    type V = bool;

    /// Whether the settings panel is open.
    closed spec fn view(&self) -> bool {
        self.is_open
    }
}

impl SettingsOpenState {
    /// Settings closed.
    pub fn new() -> (r: Self)
        ensures
            !r@,
    {
        SettingsOpenState { is_open: false }
    }

    /// Records whether the settings panel is open.
    pub fn set(&mut self, open: bool)
        ensures
            final(self)@ == open,
    {
        self.is_open = open;
    }

    /// Whether the settings panel is open.
    pub fn is_open(&self) -> (r: bool)
        ensures
            r == self@,
    {
        self.is_open
    }
}

/// Stores the ID of the currently selected clipboard item (pasted when
/// hotkey mode ends).
pub struct SelectedItemState {
    id: Option<String>,
}

impl View for SelectedItemState {
    type V = Option<Seq<char>>;

    /// The selected item's identifier, if any.
    closed spec fn view(&self) -> Option<Seq<char>> {
        self.id.deep_view()
    }
}

impl SelectedItemState {
    /// Nothing selected.
    pub fn new() -> (r: Self)
        ensures
            r@ is None,
    {
        SelectedItemState { id: None }
    }

    /// Selects an item.
    pub fn set(&mut self, id: String)
        ensures
            final(self)@ == Some(id@),
    {
        self.id = Some(id);
    }

    /// Hands out the selection and clears it.
    pub fn take(&mut self) -> (r: Option<String>)
        ensures
            r.deep_view() == old(self)@,
            final(self)@ is None,
    {
        let r = self.id.take();
        r
    }
}

/// Leaves hotkey mode and clears the selection, so that a later modifier
/// release pastes nothing.
pub fn exit_hotkey_mode(mode: &mut HotkeyModeState, selected: &mut SelectedItemState)
    ensures
        !final(mode)@,
        final(selected)@ is None,
{
    mode.exit();
    selected.take();
}

/// The first step of pasting a picked item: the selection is consumed, so
/// that the modifier-release watcher cannot paste it a second time.
pub fn begin_paste(selected: &mut SelectedItemState)
    ensures
        final(selected)@ is None,
{
    selected.take();
}

/// Whether the paste keystroke follows the clipboard write: only when the
/// write succeeded and native keystrokes are available. (The panel hides
/// either way.)
pub fn sends_keystroke(write_ok: bool, on_macos: bool) -> (r: bool)
    ensures
        r == (write_ok && on_macos),
{
    write_ok && on_macos
}

/// The last step of pasting an item: it is selected again, so that the
/// next panel opening remembers it, and hotkey mode ends.
pub fn finish_paste(mode: &mut HotkeyModeState, selected: &mut SelectedItemState, id: String)
    ensures
        final(selected)@ == Some(id@),
        !final(mode)@,
{
    selected.set(id);
    mode.exit();
}

/// The modifier-flag bit of the Command key.
pub const MASK_COMMAND: u64 = 0x100000;

/// The modifier-flag bit of the Shift key.
pub const MASK_SHIFT: u64 = 0x20000;

/// Whether the Command key is down in a set of modifier flags.
pub fn command_held(flags: u64) -> (r: bool)
    ensures
        r == (flags & MASK_COMMAND != 0),
{
    flags & MASK_COMMAND != 0
}

/// Whether the Shift key is down in a set of modifier flags.
pub fn shift_held(flags: u64) -> (r: bool)
    ensures
        r == (flags & MASK_SHIFT != 0),
{
    flags & MASK_SHIFT != 0
}

/// Whether Command or Shift is down in a set of modifier flags.
pub fn modifiers_held(flags: u64) -> (r: bool)
    ensures
        r == (flags & MASK_COMMAND != 0 || flags & MASK_SHIFT != 0),
{
    command_held(flags) || shift_held(flags)
}


/// What a tray menu entry does.
#[derive(Debug, Clone, Copy, PartialEq, Eq, Structural)]
pub enum TrayAction {
    /// Show the panel.
    Open,
    /// Show the panel and open its settings.
    Settings,
    /// Quit the application.
    Quit,
    /// Not a known entry: nothing.
    Nothing,
}

/// The action of the tray menu entry with identifier `id`.
pub fn tray_action(id: &str) -> (r: TrayAction)
    ensures
        id@ == "open"@ ==> r == TrayAction::Open,
        id@ == "settings"@ ==> r == TrayAction::Settings,
        id@ == "quit"@ ==> r == TrayAction::Quit,
        id@ != "open"@ && id@ != "settings"@ && id@ != "quit"@ ==> r == TrayAction::Nothing,
{
    proof {
        reveal_strlit("open");
        reveal_strlit("settings");
        reveal_strlit("quit");
        assert("open"@[0] != "settings"@[0] && "open"@[0] != "quit"@[0]);
        assert("settings"@[0] != "quit"@[0]);
    }
    if crate::text::str_equals(id, "open") {
        TrayAction::Open
    } else if crate::text::str_equals(id, "settings") {
        TrayAction::Settings
    } else if crate::text::str_equals(id, "quit") {
        TrayAction::Quit
    } else {
        TrayAction::Nothing
    }
}

} // verus!
