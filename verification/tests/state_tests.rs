use yeet::hotkey::{on_hotkey_event, HotkeyAction};
use yeet::keyboard::{keystroke_route, simulate_cmd_v, AccessibilityPrompt, KeystrokeRoute};
use yeet::watcher::{KeyPoll, ReleaseWatcher, WatchAction};
use yeet::window::{
    begin_paste, finish_paste, sends_keystroke,
    exit_hotkey_mode, modifiers_held, tray_action, HotkeyModeState, PanelHideGuard,
    SelectedItemState, SettingsOpenState, TrayAction, MASK_COMMAND, MASK_SHIFT,
};

fn keys(escape: bool, return_key: bool, flags: u64) -> KeyPoll {
    KeyPoll { escape, return_key, flags }
}

fn held() -> u64 {
    MASK_COMMAND | MASK_SHIFT
}

#[test]
fn simple_states() {
    let mut g = PanelHideGuard::new();
    assert!(!g.is_hiding());
    g.set_hiding();
    assert!(g.is_hiding());
    g.clear_hiding();
    assert!(!g.is_hiding());

    let mut m = HotkeyModeState::new();
    assert!(!m.is_active());
    m.enter();
    assert!(m.is_active());
    m.exit();
    assert!(!m.is_active());

    let mut o = SettingsOpenState::new();
    assert!(!o.is_open());
    o.set(true);
    assert!(o.is_open());

    let mut s = SelectedItemState::new();
    assert_eq!(s.take(), None);
    s.set("a".to_string());
    s.set("b".to_string());
    assert_eq!(s.take().as_deref(), Some("b"));
    assert_eq!(s.take(), None);
}

#[test]
fn cancelling_hotkey_mode_clears_selection() {
    let mut m = HotkeyModeState::new();
    let mut s = SelectedItemState::new();
    m.enter();
    s.set("x".to_string());
    exit_hotkey_mode(&mut m, &mut s);
    assert!(!m.is_active());
    assert_eq!(s.take(), None);
}

#[test]
fn modifier_flags() {
    assert!(modifiers_held(0x100000));
    assert!(modifiers_held(0x20000));
    assert!(modifiers_held(0x120100));
    assert!(!modifiers_held(0x80000));
    assert!(!modifiers_held(0));
}

#[test]
fn tray_entries() {
    assert_eq!(tray_action("open"), TrayAction::Open);
    assert_eq!(tray_action("settings"), TrayAction::Settings);
    assert_eq!(tray_action("quit"), TrayAction::Quit);
    assert_eq!(tray_action("other"), TrayAction::Nothing);
}

#[test]
fn hotkey_opening_enters_hotkey_mode_and_selects_newest() {
    let mut m = HotkeyModeState::new();
    let mut s = SelectedItemState::new();
    let a = on_hotkey_event(&mut m, &mut s, true, false, false, Some("newest".to_string()));
    assert_eq!(a, HotkeyAction::Toggle { started_hotkey_mode: true });
    assert!(m.is_active());
    assert_eq!(s.take().as_deref(), Some("newest"));
}

#[test]
fn hotkey_in_hotkey_mode_cycles() {
    let mut m = HotkeyModeState::new();
    let mut s = SelectedItemState::new();
    m.enter();
    s.set("k".to_string());
    let a = on_hotkey_event(&mut m, &mut s, true, true, false, Some("n".to_string()));
    assert_eq!(a, HotkeyAction::CycleNext);
    assert!(m.is_active());
    assert_eq!(s.take().as_deref(), Some("k"));
}

#[test]
fn hotkey_release_and_sticky_and_closing() {
    let mut m = HotkeyModeState::new();
    let mut s = SelectedItemState::new();
    assert_eq!(on_hotkey_event(&mut m, &mut s, false, false, false, None), HotkeyAction::Ignore);
    let a = on_hotkey_event(&mut m, &mut s, true, false, true, Some("n".to_string()));
    assert_eq!(a, HotkeyAction::Toggle { started_hotkey_mode: false });
    assert!(!m.is_active());
    let a = on_hotkey_event(&mut m, &mut s, true, true, false, Some("n".to_string()));
    assert_eq!(a, HotkeyAction::Toggle { started_hotkey_mode: false });
    assert_eq!(s.take(), None);
}

#[test]
fn watcher_idle_outside_hotkey_mode() {
    let mut w = ReleaseWatcher::new();
    w.prev_return = true;
    let mut m = HotkeyModeState::new();
    let mut s = SelectedItemState::new();
    let a = w.tick(&mut m, &mut s, false, keys(true, true, 0));
    assert!(matches!(a, WatchAction::Idle));
    assert!(!w.prev_return);
}

#[test]
fn watcher_escape_cancels_and_hides() {
    let mut w = ReleaseWatcher::new();
    let mut m = HotkeyModeState::new();
    let mut s = SelectedItemState::new();
    m.enter();
    s.set("x".to_string());
    let a = w.tick(&mut m, &mut s, false, keys(true, true, held()));
    assert!(matches!(a, WatchAction::Hide));
    assert!(!m.is_active());
    assert_eq!(s.take(), None);
}

#[test]
fn watcher_return_pastes_once() {
    let mut w = ReleaseWatcher::new();
    let mut m = HotkeyModeState::new();
    let mut s = SelectedItemState::new();
    m.enter();
    s.set("x".to_string());
    let a = w.tick(&mut m, &mut s, false, keys(false, true, held()));
    assert!(matches!(a, WatchAction::Paste(ref id) if id == "x"));
    assert!(!m.is_active());
    let a = w.tick(&mut m, &mut s, false, keys(false, true, 0));
    assert!(matches!(a, WatchAction::Idle));
}

#[test]
fn watcher_held_return_does_not_paste_again() {
    let mut w = ReleaseWatcher::new();
    w.prev_return = true;
    let mut m = HotkeyModeState::new();
    let mut s = SelectedItemState::new();
    m.enter();
    s.set("x".to_string());
    let a = w.tick(&mut m, &mut s, false, keys(false, true, held()));
    assert!(matches!(a, WatchAction::Idle));
    assert!(m.is_active());
}

#[test]
fn watcher_return_ignored_while_settings_open() {
    let mut w = ReleaseWatcher::new();
    let mut m = HotkeyModeState::new();
    let mut s = SelectedItemState::new();
    m.enter();
    s.set("x".to_string());
    let a = w.tick(&mut m, &mut s, true, keys(false, true, 0));
    assert!(matches!(a, WatchAction::Idle));
    assert!(m.is_active());
    assert!(w.prev_return);
}

#[test]
fn watcher_release_pastes_selection() {
    let mut w = ReleaseWatcher::new();
    let mut m = HotkeyModeState::new();
    let mut s = SelectedItemState::new();
    m.enter();
    s.set("x".to_string());
    let a = w.tick(&mut m, &mut s, false, keys(false, false, 0));
    assert!(matches!(a, WatchAction::RecheckEscape));
    let a = ReleaseWatcher::after_release(&mut m, &mut s, false);
    assert!(matches!(a, WatchAction::Paste(ref id) if id == "x"));
    assert!(!m.is_active());
    let a = w.tick(&mut m, &mut s, false, keys(false, false, 0));
    assert!(matches!(a, WatchAction::Idle));
}

#[test]
fn watcher_release_without_selection_hides() {
    let mut m = HotkeyModeState::new();
    let mut s = SelectedItemState::new();
    m.enter();
    assert!(matches!(ReleaseWatcher::after_release(&mut m, &mut s, false), WatchAction::Hide));
    assert!(!m.is_active());
}

#[test]
fn watcher_release_with_escape_cancels() {
    let mut m = HotkeyModeState::new();
    let mut s = SelectedItemState::new();
    m.enter();
    s.set("x".to_string());
    assert!(matches!(ReleaseWatcher::after_release(&mut m, &mut s, true), WatchAction::Hide));
    assert_eq!(s.take(), None);
    let mut m2 = HotkeyModeState::new();
    let mut s2 = SelectedItemState::new();
    assert!(matches!(ReleaseWatcher::after_release(&mut m2, &mut s2, true), WatchAction::Idle));
}

#[test]
fn watcher_modifiers_held_waits() {
    let mut w = ReleaseWatcher::new();
    let mut m = HotkeyModeState::new();
    let mut s = SelectedItemState::new();
    m.enter();
    assert!(matches!(w.tick(&mut m, &mut s, false, keys(false, false, MASK_SHIFT)), WatchAction::Idle));
    assert!(matches!(w.tick(&mut m, &mut s, true, keys(false, false, 0)), WatchAction::Idle));
    assert!(m.is_active());
}

#[test]
fn accessibility_prompt_once() {
    let mut p = AccessibilityPrompt::new();
    assert_eq!(keystroke_route(&mut p, true), KeystrokeRoute::Events);
    assert_eq!(keystroke_route(&mut p, false), KeystrokeRoute::Script { prompt_first: true });
    assert_eq!(keystroke_route(&mut p, false), KeystrokeRoute::Script { prompt_first: false });
    let mut q = AccessibilityPrompt::new();
    assert!(q.should_prompt());
    assert!(!q.should_prompt());
}

#[test]
fn keystroke_fallback() {
    assert_eq!(
        simulate_cmd_v(),
        Err("Keyboard simulation not implemented for this platform".to_string())
    );
}

#[test]
fn paste_steps() {
    let mut m = HotkeyModeState::new();
    let mut s = SelectedItemState::new();
    m.enter();
    s.set("x".to_string());
    begin_paste(&mut s);
    let mut probe = SelectedItemState::new();
    std::mem::swap(&mut probe, &mut s);
    assert_eq!(probe.take(), None);
    assert!(sends_keystroke(true, true));
    assert!(!sends_keystroke(false, true));
    assert!(!sends_keystroke(true, false));
    finish_paste(&mut m, &mut s, "x".to_string());
    assert!(!m.is_active());
    let mut w = ReleaseWatcher::new();
    assert!(matches!(w.tick(&mut m, &mut s, false, keys(false, false, 0)), WatchAction::Idle));
    assert_eq!(s.take().as_deref(), Some("x"));
}
