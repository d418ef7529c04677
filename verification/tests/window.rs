use glass::input::{InputMode, OverlayInputState, HOTKEY_ID, INTERACTIVE_TIMER_ID, WM_GLASS_MODE_INTERACTIVE, WM_GLASS_MODE_PASSIVE};
use glass::window::{
    action_without_state, loop_event, window_event, LoopEvent, WindowAction, WindowEvent, IDM_EXIT,
    MODULE_UPDATE_TIMER_ID, WM_COMMAND, WM_DESTROY, WM_DISPLAYCHANGE, WM_HOTKEY, WM_NCHITTEST, WM_PAINT,
    WM_RBUTTONUP, WM_SIZE, WM_TIMER, WM_TRAYICON,
};

struct NoRects;

#[test]
fn window_messages_decode() {
    assert_eq!(
        window_event(WM_NCHITTEST, 0, (0xFFF0 << 16) | 25),
        WindowEvent::HitTest { x: 25, y: -16 }
    );
    assert_eq!(window_event(WM_HOTKEY, HOTKEY_ID as usize, 0), WindowEvent::ToggleHotkey);
    assert_eq!(window_event(WM_HOTKEY, 2, 0), WindowEvent::Ignored);
    assert_eq!(window_event(WM_TIMER, INTERACTIVE_TIMER_ID, 0), WindowEvent::InteractiveTimeout);
    assert_eq!(window_event(WM_TIMER, MODULE_UPDATE_TIMER_ID, 0), WindowEvent::Ignored);
    assert_eq!(window_event(WM_TRAYICON, 0, WM_RBUTTONUP as isize), WindowEvent::TrayMenuRequested);
    assert_eq!(window_event(WM_TRAYICON, 0, 0x0200), WindowEvent::Ignored);
    assert_eq!(window_event(WM_COMMAND, IDM_EXIT, 0), WindowEvent::QuitCommand);
    // Only the low word of a command's wparam is its identifier.
    assert_eq!(window_event(WM_COMMAND, (1 << 16) | IDM_EXIT, 0), WindowEvent::QuitCommand);
    assert_eq!(window_event(WM_COMMAND, 1002, 0), WindowEvent::Ignored);
    assert_eq!(window_event(WM_DESTROY, 0, 0), WindowEvent::Destroy);
    assert_eq!(window_event(WM_PAINT, 0, 0), WindowEvent::Paint);
    assert_eq!(window_event(0x0001, 0, 0), WindowEvent::Unhandled);
}

#[test]
fn hit_tests_pass_through_unless_interactive() {
    let mut state = OverlayInputState::new(1000, NoRects);
    let hit = WindowEvent::HitTest { x: 10, y: 20 };
    assert_eq!(state.respond(hit, false), WindowAction::PassThrough);
    state.enter_interactive();
    assert_eq!(state.respond(hit, false), WindowAction::TestRegions { x: 10, y: 20 });
    assert_eq!(state.respond(hit, true), WindowAction::PassThrough);
    assert_eq!(state.mode, InputMode::Interactive);
}

#[test]
fn hotkey_then_timeout_cycle() {
    let mut state = OverlayInputState::new(1000, NoRects);
    assert_eq!(state.respond(WindowEvent::ToggleHotkey, false), WindowAction::StartInteractive);
    assert!(state.is_interactive());
    assert_eq!(state.respond(WindowEvent::ToggleHotkey, false), WindowAction::RestartTimeout);
    assert!(state.is_interactive());
    assert_eq!(state.respond(WindowEvent::InteractiveTimeout, false), WindowAction::StopInteractive);
    assert_eq!(state.mode, InputMode::Passive);
    assert!(state.interactive_since.is_none());
}

#[test]
fn forced_passthrough_ignores_toggle() {
    let mut state = OverlayInputState::new(1000, NoRects);
    assert_eq!(state.respond(WindowEvent::ToggleHotkey, true), WindowAction::Done);
    assert_eq!(state.mode, InputMode::Passive);
}

#[test]
fn other_events_map_to_fixed_actions() {
    let mut state = OverlayInputState::new(1000, NoRects);
    assert_eq!(state.respond(WindowEvent::TrayMenuRequested, false), WindowAction::ShowTrayMenu);
    assert_eq!(state.respond(WindowEvent::QuitCommand, false), WindowAction::Quit);
    assert_eq!(state.respond(WindowEvent::Destroy, false), WindowAction::Destroyed);
    assert_eq!(state.respond(WindowEvent::Paint, false), WindowAction::Paint);
    assert_eq!(state.respond(WindowEvent::Ignored, false), WindowAction::Done);
    assert_eq!(state.respond(WindowEvent::Unhandled, false), WindowAction::Default);
    assert_eq!(state.mode, InputMode::Passive);
}

#[test]
fn actions_before_the_state_exists() {
    assert_eq!(action_without_state(WindowEvent::HitTest { x: 0, y: 0 }), WindowAction::PassThrough);
    assert_eq!(action_without_state(WindowEvent::ToggleHotkey), WindowAction::Done);
    assert_eq!(action_without_state(WindowEvent::InteractiveTimeout), WindowAction::Done);
    assert_eq!(action_without_state(WindowEvent::TrayMenuRequested), WindowAction::Done);
    assert_eq!(action_without_state(WindowEvent::QuitCommand), WindowAction::Quit);
    assert_eq!(action_without_state(WindowEvent::Destroy), WindowAction::Destroyed);
    assert_eq!(action_without_state(WindowEvent::Paint), WindowAction::Paint);
    assert_eq!(action_without_state(WindowEvent::Unhandled), WindowAction::Default);
}

#[test]
fn loop_messages_decode() {
    assert_eq!(
        loop_event(WM_SIZE, 0, (768 << 16) | 1024),
        LoopEvent::Resized { width: 1024, height: 768 }
    );
    assert_eq!(loop_event(WM_DISPLAYCHANGE, 0, 0), LoopEvent::DisplayChanged);
    assert_eq!(loop_event(WM_GLASS_MODE_INTERACTIVE, 0, 0), LoopEvent::ModeInteractive);
    assert_eq!(loop_event(WM_GLASS_MODE_PASSIVE, 0, 0), LoopEvent::ModePassive);
    assert_eq!(loop_event(WM_TIMER, MODULE_UPDATE_TIMER_ID, 0), LoopEvent::ModuleTick);
    assert_eq!(loop_event(WM_TIMER, INTERACTIVE_TIMER_ID, 0), LoopEvent::Other);
    assert!(!LoopEvent::ModuleTick.is_dispatched());
    assert!(LoopEvent::ModeInteractive.is_dispatched());
    assert!(LoopEvent::Other.is_dispatched());
}
