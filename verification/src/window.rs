//! The decisions of the overlay window: what each window message means for
//! the input state, and what the message loop does with each message.
//!
//! The window procedure decodes a message into a [`WindowEvent`], lets the
//! input state answer it with a [`WindowAction`], and performs the action;
//! the message loop decodes its messages into a [`LoopEvent`].
use vstd::prelude::*;
use crate::input::{
    cursor_from_lparam, high_word, low_word, signed_word, size_from_lparam, HotkeyAction, InputMode,
    OverlayInputState,
    HOTKEY_ID, INTERACTIVE_TIMER_ID, WM_GLASS_MODE_INTERACTIVE, WM_GLASS_MODE_PASSIVE,
};

verus! {

/// `WM_DESTROY`: the window is being destroyed.
pub const WM_DESTROY: u32 = 0x0002;
/// `WM_SIZE`: the client area was resized.
pub const WM_SIZE: u32 = 0x0005;
/// `WM_PAINT`: the client area must be painted.
pub const WM_PAINT: u32 = 0x000F;
/// `WM_DISPLAYCHANGE`: the display resolution changed.
pub const WM_DISPLAYCHANGE: u32 = 0x007E;
/// `WM_NCHITTEST`: which part of the window is under the pointer.
pub const WM_NCHITTEST: u32 = 0x0084;
/// `WM_COMMAND`: a menu command.
pub const WM_COMMAND: u32 = 0x0111;
/// `WM_TIMER`: a timer expired.
pub const WM_TIMER: u32 = 0x0113;
/// `WM_RBUTTONUP`: the right mouse button was released.
pub const WM_RBUTTONUP: u32 = 0x0205;
/// `WM_HOTKEY`: a registered hotkey was pressed.
pub const WM_HOTKEY: u32 = 0x0312;
/// Callback message of the tray icon (`WM_APP + 1`).
pub const WM_TRAYICON: u32 = 0x8000 + 1;
/// Command identifier of the tray menu's quit entry.
pub const IDM_EXIT: usize = 1001;
/// Timer ID used for periodic module updates in the message loop.
pub const MODULE_UPDATE_TIMER_ID: usize = 43;

// ─── Window procedure ───────────────────────────────────────────────────────

/// A window message, decoded.
#[derive(Debug, Clone, Copy, PartialEq, Eq, Structural)]
pub enum WindowEvent {
    /// Hit test for the pointer at screen point (`x`, `y`).
    HitTest { x: i16, y: i16 },
    /// The interactive-mode hotkey was pressed.
    ToggleHotkey,
    /// The interactive-mode timeout expired.
    InteractiveTimeout,
    /// The tray icon was right-clicked.
    TrayMenuRequested,
    /// The tray menu's quit entry was chosen.
    QuitCommand,
    /// The window is being destroyed.
    Destroy,
    /// The client area must be painted.
    Paint,
    /// A hotkey, timer, tray event or command that is not ours to act on.
    Ignored,
    /// Any other message.
    Unhandled,
}

/// The event that a message stands for.
pub open spec fn window_event_of(msg: u32, wparam: usize, lparam: isize) -> WindowEvent {
    if msg == WM_NCHITTEST {
        WindowEvent::HitTest {
            x: signed_word(low_word(lparam as int)) as i16,
            y: signed_word(high_word(lparam as int)) as i16,
        }
    } else if msg == WM_HOTKEY {
        if wparam as i32 == HOTKEY_ID { WindowEvent::ToggleHotkey } else { WindowEvent::Ignored }
    } else if msg == WM_TIMER {
        if wparam == INTERACTIVE_TIMER_ID { WindowEvent::InteractiveTimeout } else { WindowEvent::Ignored }
    } else if msg == WM_TRAYICON {
        if lparam as u32 == WM_RBUTTONUP { WindowEvent::TrayMenuRequested } else { WindowEvent::Ignored }
    } else if msg == WM_COMMAND {
        if wparam & 0xFFFF == IDM_EXIT { WindowEvent::QuitCommand } else { WindowEvent::Ignored }
    } else if msg == WM_DESTROY {
        WindowEvent::Destroy
    } else if msg == WM_PAINT {
        WindowEvent::Paint
    } else {
        WindowEvent::Unhandled
    }
}

/// Decode a window message from its number and parameters.
pub fn window_event(msg: u32, wparam: usize, lparam: isize) -> (e: WindowEvent)
    ensures
        e == window_event_of(msg, wparam, lparam),
{
    if msg == WM_NCHITTEST {
        let (x, y) = cursor_from_lparam(lparam);
        WindowEvent::HitTest { x, y }
    } else if msg == WM_HOTKEY {
        if wparam as i32 == HOTKEY_ID { WindowEvent::ToggleHotkey } else { WindowEvent::Ignored }
    } else if msg == WM_TIMER {
        if wparam == INTERACTIVE_TIMER_ID { WindowEvent::InteractiveTimeout } else { WindowEvent::Ignored }
    } else if msg == WM_TRAYICON {
        if lparam as u32 == WM_RBUTTONUP { WindowEvent::TrayMenuRequested } else { WindowEvent::Ignored }
    } else if msg == WM_COMMAND {
        if wparam & 0xFFFF == IDM_EXIT { WindowEvent::QuitCommand } else { WindowEvent::Ignored }
    } else if msg == WM_DESTROY {
        WindowEvent::Destroy
    } else if msg == WM_PAINT {
        WindowEvent::Paint
    } else {
        WindowEvent::Unhandled
    }
}

/// What the window procedure must do for an event.
#[derive(Debug, Clone, Copy, PartialEq, Eq, Structural)]
pub enum WindowAction {
    /// Answer the hit test with "transparent": the pointer passes through.
    PassThrough,
    /// Answer the hit test by the interactive regions at (`x`, `y`).
    TestRegions { x: i16, y: i16 },
    /// The overlay became interactive: let the window take the pointer,
    /// start the timeout timer and announce the mode change.
    StartInteractive,
    /// The overlay was interactive already: restart the timeout timer.
    RestartTimeout,
    /// The overlay became passive: make the window transparent to the
    /// pointer, stop the timeout timer and announce the mode change.
    StopInteractive,
    /// Show the tray menu.
    ShowTrayMenu,
    /// Remove the tray icon, release the hotkey and the input state, and
    /// destroy the window.
    Quit,
    /// Remove the tray icon, release the hotkey and the input state, and end
    /// the message loop.
    Destroyed,
    /// Validate the client area.
    Paint,
    /// Nothing more to do: the message is handled.
    Done,
    /// Leave the message to the default window procedure.
    Default,
}

/// The action for an event that needs no input state, or that comes before
/// the window has one: hit tests pass through and mode events are ignored.
pub open spec fn stateless_action(e: WindowEvent) -> WindowAction {
    match e {
        WindowEvent::HitTest { .. } => WindowAction::PassThrough,
        WindowEvent::QuitCommand => WindowAction::Quit,
        WindowEvent::Destroy => WindowAction::Destroyed,
        WindowEvent::Paint => WindowAction::Paint,
        WindowEvent::Unhandled => WindowAction::Default,
        _ => WindowAction::Done,
    }
}

/// The action for `e` while the window has no input state yet (or no longer
/// has one).
pub fn action_without_state(e: WindowEvent) -> (a: WindowAction)
    ensures
        a == stateless_action(e),
{
    match e {
        WindowEvent::HitTest { .. } => WindowAction::PassThrough,
        WindowEvent::QuitCommand => WindowAction::Quit,
        WindowEvent::Destroy => WindowAction::Destroyed,
        WindowEvent::Paint => WindowAction::Paint,
        WindowEvent::Unhandled => WindowAction::Default,
        _ => WindowAction::Done,
    }
}

impl<H> OverlayInputState<H> {
    /// Answer a window event. Hit tests consult the interactive regions only
    /// in interactive mode; the hotkey makes the overlay interactive (or
    /// restarts its timeout), unless pass-through is forced; the timeout
    /// returns it to passive mode. Other events leave the state as it was.
    pub fn respond(&mut self, e: WindowEvent, passthrough_forced: bool) -> (a: WindowAction)
        ensures
            final(self).hit_tester == old(self).hit_tester,
            final(self).timeout == old(self).timeout,
            final(self).interactivity_available == old(self).interactivity_available,
            final(self).app_name == old(self).app_name,
            match e {
                WindowEvent::HitTest { x, y } => {
                    &&& *final(self) == *old(self)
                    &&& a == (if !passthrough_forced && old(self).mode == InputMode::Interactive {
                        WindowAction::TestRegions { x, y }
                    } else {
                        WindowAction::PassThrough
                    })
                },
                WindowEvent::ToggleHotkey => if passthrough_forced {
                    *final(self) == *old(self) && a == WindowAction::Done
                } else {
                    &&& final(self).mode == InputMode::Interactive
                    &&& final(self).interactive_since is Some
                    &&& a == (if old(self).mode == InputMode::Interactive {
                        WindowAction::RestartTimeout
                    } else {
                        WindowAction::StartInteractive
                    })
                },
                WindowEvent::InteractiveTimeout => {
                    &&& final(self).mode == InputMode::Passive
                    &&& final(self).interactive_since is None
                    &&& a == WindowAction::StopInteractive
                },
                WindowEvent::TrayMenuRequested => *final(self) == *old(self) && a == WindowAction::ShowTrayMenu,
                _ => *final(self) == *old(self) && a == stateless_action(e),
            },
    {
        match e {
            WindowEvent::HitTest { x, y } => {
                if self.accepts_pointer(passthrough_forced) {
                    WindowAction::TestRegions { x, y }
                } else {
                    WindowAction::PassThrough
                }
            },
            WindowEvent::ToggleHotkey => {
                match self.on_hotkey(passthrough_forced) {
                    HotkeyAction::Ignore => WindowAction::Done,
                    HotkeyAction::ResetTimer => WindowAction::RestartTimeout,
                    HotkeyAction::Activate => WindowAction::StartInteractive,
                }
            },
            WindowEvent::InteractiveTimeout => {
                self.on_timer(INTERACTIVE_TIMER_ID);
                WindowAction::StopInteractive
            },
            WindowEvent::TrayMenuRequested => WindowAction::ShowTrayMenu,
            _ => action_without_state(e),
        }
    }
}

// ─── Message loop ───────────────────────────────────────────────────────────

/// A message seen by the overlay's message loop, decoded.
#[derive(Debug, Clone, Copy, PartialEq, Eq, Structural)]
pub enum LoopEvent {
    /// The client area is now `width` × `height`: resize, lay out, render.
    Resized { width: u32, height: u32 },
    /// The display changed: resize to the screen, lay out, render.
    DisplayChanged,
    /// The overlay entered interactive mode: show the indicator, render.
    ModeInteractive,
    /// The overlay entered passive mode: hide the indicator, render.
    ModePassive,
    /// The module update timer: tick the modules, render if they changed.
    ModuleTick,
    /// Nothing for the loop itself.
    Other,
}

/// The loop event that a message stands for.
pub open spec fn loop_event_of(msg: u32, wparam: usize, lparam: isize) -> LoopEvent {
    if msg == WM_SIZE {
        LoopEvent::Resized {
            width: low_word(lparam as int) as u32,
            height: high_word(lparam as int) as u32,
        }
    } else if msg == WM_DISPLAYCHANGE {
        LoopEvent::DisplayChanged
    } else if msg == WM_GLASS_MODE_INTERACTIVE {
        LoopEvent::ModeInteractive
    } else if msg == WM_GLASS_MODE_PASSIVE {
        LoopEvent::ModePassive
    } else if msg == WM_TIMER && wparam == MODULE_UPDATE_TIMER_ID {
        LoopEvent::ModuleTick
    } else {
        LoopEvent::Other
    }
}

/// Decode a message taken from the queue by the message loop.
pub fn loop_event(msg: u32, wparam: usize, lparam: isize) -> (e: LoopEvent)
    ensures
        e == loop_event_of(msg, wparam, lparam),
{
    if msg == WM_SIZE {
        let (width, height) = size_from_lparam(lparam);
        LoopEvent::Resized { width, height }
    } else if msg == WM_DISPLAYCHANGE {
        LoopEvent::DisplayChanged
    } else if msg == WM_GLASS_MODE_INTERACTIVE {
        LoopEvent::ModeInteractive
    } else if msg == WM_GLASS_MODE_PASSIVE {
        LoopEvent::ModePassive
    } else if msg == WM_TIMER && wparam == MODULE_UPDATE_TIMER_ID {
        LoopEvent::ModuleTick
    } else {
        LoopEvent::Other
    }
}

impl LoopEvent {
    /// Whether the message goes on to the window procedure after the loop
    /// has handled it: all do but the loop's own module timer.
    pub fn is_dispatched(&self) -> (r: bool)
        ensures
            r == !(*self is ModuleTick),
    {
        !matches!(self, LoopEvent::ModuleTick)
    }
}

} // verus!
