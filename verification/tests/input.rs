use glass::input::{
    cursor_from_lparam, size_from_lparam, topmost_hit,
    HotkeyAction, InputManager, InputMode, OverlayInputState, INTERACTIVE_TIMER_ID, WM_GLASS_MODE_INTERACTIVE,
    WM_GLASS_MODE_PASSIVE,
};
use glass::scene::{NodeId, Scene};
use std::time::Duration;

/// Stand-in for the hit-tester the window keeps with the input state.
#[derive(Debug, Default, PartialEq)]
struct NoRects;

#[test]
fn state_starts_passive() {
    let state = OverlayInputState::new(4000, NoRects);
    assert_eq!(state.mode, InputMode::Passive);
    assert!(!state.is_interactive());
    assert!(state.interactive_since.is_none());
}

#[test]
fn state_enter_interactive() {
    let mut state = OverlayInputState::new(4000, NoRects);

    let changed = state.enter_interactive();
    assert!(changed);
    assert_eq!(state.mode, InputMode::Interactive);
    assert!(state.is_interactive());
    assert!(state.interactive_since.is_some());
}

#[test]
fn state_enter_interactive_twice_is_reset() {
    let mut state = OverlayInputState::new(4000, NoRects);

    state.enter_interactive();
    let first_since = state.interactive_since.unwrap();

    let changed = state.enter_interactive();
    assert!(!changed); // mode didn't change (already interactive)
    assert!(state.interactive_since.unwrap() >= first_since);
}

#[test]
fn state_round_trip() {
    let mut state = OverlayInputState::new(4000, NoRects);

    state.enter_interactive();
    assert!(state.is_interactive());

    let changed = state.enter_passive();
    assert!(changed);
    assert!(!state.is_interactive());
    assert!(state.interactive_since.is_none());
}

#[test]
fn state_enter_passive_when_already_passive() {
    let mut state = OverlayInputState::new(4000, NoRects);

    let changed = state.enter_passive();
    assert!(!changed); // already passive
}

#[test]
fn state_timeout_duration() {
    let state = OverlayInputState::new(3000, NoRects);
    assert_eq!(state.timeout, Duration::from_millis(3000));
}

// ── Further cases ───────────────────────────────────────────────────────────

#[test]
fn hotkey_toggles_into_interactive_then_resets_timer() {
    let mut state = OverlayInputState::new(4000, NoRects);
    assert_eq!(state.on_hotkey(false), HotkeyAction::Activate);
    assert!(state.is_interactive());
    assert_eq!(state.on_hotkey(false), HotkeyAction::ResetTimer);
    assert!(state.is_interactive());
    assert!(state.accepts_pointer(false));
    assert!(!state.accepts_pointer(true));
}

#[test]
fn forced_passthrough_ignores_hotkey() {
    let mut state = OverlayInputState::new(4000, NoRects);
    assert_eq!(state.on_hotkey(true), HotkeyAction::Ignore);
    assert_eq!(state.mode, InputMode::Passive);
    assert!(!state.accepts_pointer(false));
}

#[test]
fn interactive_timer_returns_to_passive() {
    let mut state = OverlayInputState::new(4000, NoRects);
    state.on_hotkey(false);
    assert!(!state.on_timer(INTERACTIVE_TIMER_ID + 1));
    assert!(state.is_interactive());
    assert!(state.on_timer(INTERACTIVE_TIMER_ID));
    assert_eq!(state.mode, InputMode::Passive);
    assert!(state.interactive_since.is_none());
    assert!(!state.on_timer(INTERACTIVE_TIMER_ID));
}

#[test]
fn mode_names_and_messages() {
    assert_eq!(InputMode::Passive.to_string(), "Passive");
    assert_eq!(InputMode::Interactive.to_string(), "Interactive");
    assert_eq!(WM_GLASS_MODE_INTERACTIVE, 0x800A);
    assert_eq!(WM_GLASS_MODE_PASSIVE, 0x800B);
}

#[test]
fn indicator_show_then_hide_restores_scene() {
    let mut scene: Scene<&'static str> = Scene::new();
    let keep = scene.add("content");
    let mut manager = InputManager::new();
    assert!(!manager.indicator_visible());

    let parts = vec!["top", "bottom", "left", "right", "INTERACTIVE"];
    assert!(manager.show_indicator(&mut scene, parts));
    assert!(manager.indicator_visible());
    assert_eq!(scene.len(), 6);
    let ids: Vec<NodeId> = scene.iter().iter().map(|(id, _)| *id).collect();
    assert_eq!(ids, vec![keep, NodeId(1), NodeId(2), NodeId(3), NodeId(4), NodeId(5)]);

    // Showing again adds nothing.
    assert!(!manager.show_indicator(&mut scene, vec!["again"]));
    assert_eq!(scene.len(), 6);

    assert!(manager.hide_indicator(&mut scene));
    assert!(!manager.indicator_visible());
    let left: Vec<(NodeId, &&str)> = scene.iter();
    assert_eq!(left, vec![(keep, &"content")]);

    // Hiding again removes nothing.
    assert!(!manager.hide_indicator(&mut scene));
    assert_eq!(scene.len(), 1);
}

#[test]
fn custom_app_name_is_kept() {
    let state = OverlayInputState::with_app_name(2500, "MyOverlay", NoRects);
    assert_eq!(state.app_name, "MyOverlay");
    assert_eq!(state.timeout, Duration::from_millis(2500));
    assert_eq!(state.mode, InputMode::Passive);
    assert!(state.interactivity_available);

    let default_named = OverlayInputState::new(100, NoRects);
    assert_eq!(default_named.app_name, "GLASS");
}

#[test]
fn size_from_lparam_splits_words() {
    // 1920 x 1080 packed as (height << 16) | width.
    let lparam: isize = (1080 << 16) | 1920;
    assert_eq!(size_from_lparam(lparam), (1920, 1080));
    assert_eq!(size_from_lparam(0), (0, 0));
    // Bits above the two words are ignored.
    assert_eq!(size_from_lparam(0x7_0002_0001), (1, 2));
}

#[test]
fn cursor_from_lparam_is_signed() {
    let lparam: isize = (200 << 16) | 100;
    assert_eq!(cursor_from_lparam(lparam), (100, 200));
    // A monitor left of / above the primary gives negative coordinates.
    let neg: isize = (0xFFFE << 16) | 0xFFFF;
    assert_eq!(cursor_from_lparam(neg), (-1, -2));
    assert_eq!(cursor_from_lparam(0x8000), (-32768, 0));
}

#[test]
fn topmost_hit_prefers_higher_z_then_first_added() {
    assert_eq!(topmost_hit(&vec![], &vec![]), None);
    assert_eq!(topmost_hit(&vec![0, 5, 2], &vec![false, false, false]), None);
    assert_eq!(topmost_hit(&vec![0, 5, 2], &vec![true, false, true]), Some(2));
    assert_eq!(topmost_hit(&vec![0, 5, 2], &vec![true, true, true]), Some(1));
    // Equal z-order: the region added first wins.
    assert_eq!(topmost_hit(&vec![3, 3, 3], &vec![false, true, true]), Some(1));
    assert_eq!(topmost_hit(&vec![-1, -4], &vec![true, true]), Some(0));
}

#[test]
fn indicator_shown_twice_adds_nothing_more() {
    let mut scene: Scene<u8> = Scene::new();
    let mut manager = InputManager::new();
    assert!(manager.show_indicator(&mut scene, vec![1, 2]));
    let len = scene.len();
    assert!(!manager.show_indicator(&mut scene, vec![3, 4, 5]));
    assert_eq!(scene.len(), len);
    assert!(manager.hide_indicator(&mut scene));
    assert!(scene.is_empty());
    assert!(!manager.indicator_visible());
}
