//! Input mode subsystem: passive/interactive mode switching and the
//! interactive-mode indicator lifecycle.
//!
//! The overlay supports two input modes:
//! - **Passive (Mode A)** — default; the overlay is fully click-through.
//! - **Interactive (Mode B)** — triggered by a global hotkey; mouse input is
//!   accepted on designated interactive rectangles for a configurable timeout.
//!
//! [`OverlayInputState`] holds the mode and decides what each window event
//! does to it; [`InputManager`] drives the visual indicator in the scene.
use vstd::prelude::*;
use crate::scene::{NodeId, Scene, SceneView, fresh_ids};
use std::time::{Duration, Instant};

verus! {

// ─── Custom Windows messages ────────────────────────────────────────────────
/// Posted when input mode transitions to interactive.
pub const WM_GLASS_MODE_INTERACTIVE: u32 = 0x8000 + 10;
/// Posted when input mode transitions back to passive.
pub const WM_GLASS_MODE_PASSIVE: u32 = 0x8000 + 11;
/// Win32 timer ID for the interactive-mode timeout.
pub const INTERACTIVE_TIMER_ID: usize = 42;
/// Win32 hotkey ID for the toggle hotkey.
pub const HOTKEY_ID: i32 = 1;

// ─── Time ───────────────────────────────────────────────────────────────────

#[verifier::external_type_specification]
#[verifier::external_body]
pub struct ExInstant(std::time::Instant);

/// The `Duration` that `std::time::Duration::from_millis(ms)` returns.
pub uninterp spec fn duration_of_millis(ms: u64) -> Duration;

/// Calls `std::time::Duration::from_millis`; its result is a function of
/// `ms` alone, named [`duration_of_millis`].
#[verifier::external_body]
fn duration_from_millis(ms: u64) -> (d: Duration)
    ensures
        d == duration_of_millis(ms),
{
    Duration::from_millis(ms)
}

/// Calls `std::time::Instant::now`; it reads the clock, so nothing is
/// stated of the instant it returns.
#[verifier::external_body]
fn instant_now() -> Instant {
    Instant::now()
}

// ─── InputMode ──────────────────────────────────────────────────────────────

/// Current input mode of the overlay.
#[derive(Debug, Clone, Copy, PartialEq, Eq, Structural)]
pub enum InputMode {
    /// Fully click-through — no mouse events reach the overlay.
    Passive,
    /// Interactive — designated rects accept mouse input until timeout.
    Interactive,
}

impl InputMode {
    /// The name of the mode.
    pub open spec fn spec_name(self) -> Seq<char> {
        match self {
            InputMode::Passive => "Passive"@,
            InputMode::Interactive => "Interactive"@,
        }
    }

    /// The name of the mode: `"Passive"` or `"Interactive"`.
    pub fn to_string(&self) -> (r: String)
        ensures
            r@ == self.spec_name(),
    {
        match self {
            InputMode::Passive => String::from_str("Passive"),
            InputMode::Interactive => String::from_str("Interactive"),
        }
    }
}

// ─── OverlayInputState ─────────────────────────────────────────────────────

/// What a press of the toggle hotkey does.
#[derive(Debug, Clone, Copy, PartialEq, Eq, Structural)]
pub enum HotkeyAction {
    /// Nothing: input pass-through is forced.
    Ignore,
    /// Already interactive: restart the timeout timer.
    ResetTimer,
    /// Passive: make the window hit-testable, start the timer and announce
    /// the transition.
    Activate,
}

/// Shared state stored with the overlay window.
///
/// Accessed exclusively from the window-proc thread (single-threaded by
/// the Win32 message-pump model). `H` is the hit-tester for interactive
/// regions.
pub struct OverlayInputState<H> {
    /// Current input mode.
    pub mode: InputMode,
    /// Hit-tester for interactive regions.
    pub hit_tester: H,
    /// Timeout duration for interactive mode.
    pub timeout: Duration,
    /// When interactive mode started (for diagnostics).
    pub interactive_since: Option<Instant>,
    /// Whether interactive mode is available (hotkey registered successfully).
    pub interactivity_available: bool,
    /// Application name used in tray UI labels.
    pub app_name: String,
}

impl<H> OverlayInputState<H> {
    /// Create a new input state in passive mode, with app name `"GLASS"`.
    pub fn new(timeout_ms: u32, hit_tester: H) -> (s: Self)
        ensures
            s.mode == InputMode::Passive,
            s.hit_tester == hit_tester,
            s.timeout == duration_of_millis(timeout_ms as u64),
            s.interactive_since is None,
            s.interactivity_available,
            s.app_name@ == "GLASS"@,
    {
        Self::with_app_name(timeout_ms, "GLASS", hit_tester)
    }

    /// Create a new input state in passive mode with a custom app name.
    pub fn with_app_name(timeout_ms: u32, app_name: &str, hit_tester: H) -> (s: Self)
        ensures
            s.mode == InputMode::Passive,
            s.hit_tester == hit_tester,
            s.timeout == duration_of_millis(timeout_ms as u64),
            s.interactive_since is None,
            s.interactivity_available,
            s.app_name@ == app_name@,
    {
        OverlayInputState {
            mode: InputMode::Passive,
            hit_tester,
            timeout: duration_from_millis(timeout_ms as u64),
            interactive_since: None,
            interactivity_available: true,
            app_name: String::from_str(app_name),
        }
    }

    /// Transition to interactive mode.
    ///
    /// Returns `true` if the mode actually changed (was passive),
    /// `false` if already interactive (timer reset only).
    pub fn enter_interactive(&mut self) -> (changed: bool)
        ensures
            changed == (old(self).mode == InputMode::Passive),
            final(self).mode == InputMode::Interactive,
            final(self).interactive_since is Some,
            final(self).hit_tester == old(self).hit_tester,
            final(self).timeout == old(self).timeout,
            final(self).interactivity_available == old(self).interactivity_available,
            final(self).app_name == old(self).app_name,
    {
        let was_passive = self.mode == InputMode::Passive;
        self.mode = InputMode::Interactive;
        self.interactive_since = Some(instant_now());
        was_passive
    }

    /// Transition to passive mode.
    ///
    /// Returns `true` if the mode actually changed.
    pub fn enter_passive(&mut self) -> (changed: bool)
        ensures
            changed == (old(self).mode == InputMode::Interactive),
            final(self).mode == InputMode::Passive,
            final(self).interactive_since is None,
            final(self).hit_tester == old(self).hit_tester,
            final(self).timeout == old(self).timeout,
            final(self).interactivity_available == old(self).interactivity_available,
            final(self).app_name == old(self).app_name,
    {
        let was_interactive = self.mode == InputMode::Interactive;
        self.mode = InputMode::Passive;
        self.interactive_since = None;
        was_interactive
    }

    /// Whether the overlay is in interactive mode.
    pub fn is_interactive(&self) -> (r: bool)
        ensures
            r == (self.mode == InputMode::Interactive),
    {
        self.mode == InputMode::Interactive
    }

    /// Handle a press of the toggle hotkey. When pass-through is forced the
    /// press is ignored; otherwise the overlay becomes (or stays)
    /// interactive and the returned action says what the window must do.
    pub fn on_hotkey(&mut self, passthrough_forced: bool) -> (action: HotkeyAction)
        ensures
            passthrough_forced ==> action == HotkeyAction::Ignore && *final(self) == *old(self),
            !passthrough_forced ==> {
                &&& final(self).mode == InputMode::Interactive
                &&& final(self).interactive_since is Some
                &&& action == (if old(self).mode == InputMode::Interactive {
                    HotkeyAction::ResetTimer
                } else {
                    HotkeyAction::Activate
                })
            },
            final(self).hit_tester == old(self).hit_tester,
            final(self).timeout == old(self).timeout,
            final(self).interactivity_available == old(self).interactivity_available,
            final(self).app_name == old(self).app_name,
    {
        if passthrough_forced {
            return HotkeyAction::Ignore;
        }
        if self.enter_interactive() {
            HotkeyAction::Activate
        } else {
            HotkeyAction::ResetTimer
        }
    }

    /// Handle a window timer. The interactive-mode timer returns the overlay
    /// to passive mode; the result says whether a transition to announce
    /// happened. Other timers change nothing.
    pub fn on_timer(&mut self, timer_id: usize) -> (transitioned: bool)
        ensures
            timer_id == INTERACTIVE_TIMER_ID ==> {
                &&& final(self).mode == InputMode::Passive
                &&& final(self).interactive_since is None
                &&& transitioned == (old(self).mode == InputMode::Interactive)
            },
            timer_id != INTERACTIVE_TIMER_ID ==> !transitioned && *final(self) == *old(self),
            final(self).hit_tester == old(self).hit_tester,
            final(self).timeout == old(self).timeout,
            final(self).interactivity_available == old(self).interactivity_available,
            final(self).app_name == old(self).app_name,
    {
        if timer_id == INTERACTIVE_TIMER_ID {
            self.enter_passive()
        } else {
            false
        }
    }

    /// Whether pointer hit-tests must consult the interactive regions:
    /// only in interactive mode, and never when pass-through is forced.
    /// Otherwise the window is transparent to the pointer.
    pub fn accepts_pointer(&self, passthrough_forced: bool) -> (r: bool)
        ensures
            r == (!passthrough_forced && self.mode == InputMode::Interactive),
    {
        !passthrough_forced && self.mode == InputMode::Interactive
    }
}

// ─── Hit-test order ─────────────────────────────────────────────────────────

/// Whether region `k` is the one a hit test picks among regions with
/// z-orders `zs`, of which `hits` are under the pointer: it is hit, and
/// every other hit region lies lower, or as high and was added later.
pub open spec fn is_topmost(zs: Seq<i32>, hits: Seq<bool>, k: int) -> bool {
    &&& 0 <= k < zs.len()
    &&& hits[k]
    &&& forall|j: int| 0 <= j < zs.len() && #[trigger] hits[j] ==> zs[j] < zs[k] || (zs[j] == zs[k] && k <= j)
}

/// The region a hit test picks: among the regions under the pointer
/// (`hits`, in the order they were added), the one with the highest
/// z-order, the first added on a tie; none when no region is hit.
pub fn topmost_hit(zs: &Vec<i32>, hits: &Vec<bool>) -> (r: Option<usize>)
    requires
        zs@.len() == hits@.len(),
    ensures
        r matches Some(k) ==> is_topmost(zs@, hits@, k as int),
        r is None <==> forall|j: int| 0 <= j < hits@.len() ==> !#[trigger] hits@[j],
{
    let n = zs.len();
    let mut best: Option<usize> = None;
    let mut i: usize = 0;
    while i < n
        invariant
            n == zs@.len(),
            n == hits@.len(),
            0 <= i <= n,
            best matches Some(k) ==> k < i && hits@[k as int] && forall|j: int|
                0 <= j < i && #[trigger] hits@[j] ==> zs@[j] < zs@[k as int] || (zs@[j] == zs@[k as int] && k <= j),
            best is None ==> forall|j: int| 0 <= j < i ==> !#[trigger] hits@[j],
        decreases n - i,
    {
        if hits[i] {
            match best {
                None => {
                    best = Some(i);
                },
                Some(k) => {
                    if zs[i] > zs[k] {
                        best = Some(i);
                    }
                },
            }
        }
        i += 1;
    }
    best
}

// ─── Window message parameters ─────────────────────────────────────────────

/// The low 16 bits of `v` as an unsigned number.
pub open spec fn low_word(v: int) -> int {
    v % 65536
}

/// The 16 bits above the low 16 bits of `v` as an unsigned number.
pub open spec fn high_word(v: int) -> int {
    (v / 65536) % 65536
}

/// A 16-bit word read as a two's-complement signed number.
pub open spec fn signed_word(w: int) -> int {
    if w >= 32768 { w - 65536 } else { w }
}

/// The new client size carried by a `WM_SIZE` message: width in the low
/// word of `lparam`, height in the high word.
pub fn size_from_lparam(lparam: isize) -> (r: (u32, u32))
    ensures
        r.0 as int == low_word(lparam as int),
        r.1 as int == high_word(lparam as int),
{
    let lo = lparam & 0xFFFF;
    let hi = (lparam >> 16) & 0xFFFF;
    assert(lo == lparam % 65536 && 0 <= lo < 65536) by (bit_vector)
        requires
            lo == lparam & 0xFFFF,
    ;
    assert(hi == (lparam / 65536) % 65536 && 0 <= hi < 65536) by (bit_vector)
        requires
            hi == (lparam >> 16) & 0xFFFF,
    ;
    (lo as u32, hi as u32)
}

/// The cursor position carried by a `WM_NCHITTEST` message: signed screen
/// coordinates in the low (x) and high (y) words of `lparam`.
pub fn cursor_from_lparam(lparam: isize) -> (r: (i16, i16))
    ensures
        r.0 as int == signed_word(low_word(lparam as int)),
        r.1 as int == signed_word(high_word(lparam as int)),
{
    let (lo, hi) = size_from_lparam(lparam);
    let x: i16 = if lo >= 32768 { (lo as i32 - 65536) as i16 } else { lo as i16 };
    let y: i16 = if hi >= 32768 { (hi as i32 - 65536) as i16 } else { hi as i16 };
    (x, y)
}

// ─── InputManager (high-level API) ──────────────────────────────────────────

/// The mathematical content of an [`InputManager`].
pub struct InputManagerView {
    /// Scene node IDs of the indicator.
    pub ids: Seq<NodeId>,
    /// Whether the indicator is shown.
    pub visible: bool,
}

impl InputManagerView {
    /// The manager and the scene after showing an indicator made of `nodes`:
    /// a hidden indicator is added to the scene under fresh identifiers; a
    /// visible one leaves both as they were.
    pub open spec fn after_show<N>(self, scene: SceneView<N>, nodes: Seq<N>) -> (InputManagerView, SceneView<N>) {
        if self.visible {
            (self, scene)
        } else {
            (
                InputManagerView { ids: fresh_ids(scene.next_id, nodes.len()), visible: true },
                scene.after_add_all(nodes),
            )
        }
    }

    /// The manager and the scene after hiding the indicator: a visible
    /// indicator's nodes are removed from the scene; a hidden one leaves both
    /// as they were.
    pub open spec fn after_hide<N>(self, scene: SceneView<N>) -> (InputManagerView, SceneView<N>) {
        if self.visible {
            (InputManagerView { ids: Seq::empty(), visible: false }, scene.after_remove_all(self.ids))
        } else {
            (self, scene)
        }
    }
}

/// High-level manager for the interactive-mode indicator lifecycle.
///
/// Used by the main application loop (not the wnd_proc directly).
pub struct InputManager {
    /// Scene node IDs for the visual indicator (border rects + label).
    indicator_node_ids: Vec<NodeId>,
    /// Whether the indicator is currently visible.
    indicator_visible: bool,
}

impl View for InputManager {
    type V = InputManagerView;

    closed spec fn view(&self) -> InputManagerView {
        InputManagerView { ids: self.indicator_node_ids@, visible: self.indicator_visible }
    }
}

impl InputManager {
    /// A hidden indicator owns no scene nodes.
    #[verifier::type_invariant]
    pub open spec fn wf(&self) -> bool {
        !self@.visible ==> self@.ids.len() == 0
    }

    /// Create a new InputManager.
    pub fn new() -> (m: Self)
        ensures
            !m@.visible,
            m@.ids.len() == 0,
    {
        InputManager { indicator_node_ids: Vec::new(), indicator_visible: false }
    }

    /// Show the interactive-mode visual indicator made of `nodes` (border
    /// and label), adding them to the scene in order.
    ///
    /// Returns `true` if the indicator was added (wasn't already visible);
    /// otherwise nothing changes.
    pub fn show_indicator<N>(&mut self, scene: &mut Scene<N>, nodes: Vec<N>) -> (added: bool)
        requires
            !old(self)@.visible ==> old(scene)@.next_id + nodes@.len() <= u32::MAX,
        ensures
            added == !old(self)@.visible,
            (final(self)@, final(scene)@) == old(self)@.after_show(old(scene)@, nodes@),
            !added ==> final(self)@ == old(self)@ && final(scene)@ == old(scene)@,
            added ==> {
                &&& final(self)@.visible
                &&& final(self)@.ids == fresh_ids(old(scene)@.next_id, nodes@.len())
                &&& final(scene)@ == old(scene)@.after_add_all(nodes@)
            },
    {
        if self.indicator_visible {
            return false;
        }
        proof {
            use_type_invariant(&*scene);
        }
        let ghost start = scene@;
        let mut ids: Vec<NodeId> = Vec::new();
        let mut nodes = nodes;
        let ghost all = nodes@;
        let n = nodes.len();
        let mut i: usize = 0;
        while i < n
            invariant
                n == all.len(),
                0 <= i <= n,
                nodes@ == all.skip(i as int),
                start.wf(),
                start.next_id + n <= u32::MAX,
                scene@ == start.after_add_all(all.take(i as int)),
                scene@.next_id == start.next_id + i,
                ids@ == fresh_ids(start.next_id, i as nat),
            decreases n - i,
        {
            let node = nodes.remove(0);
            proof {
                assert(node == all[i as int]);
                assert(nodes@ =~= all.skip(i + 1));
                crate::scene::add_all_appends(start, all.take(i as int));
                add_all_snoc(start, all.take(i as int), node);
                assert(all.take(i as int).push(node) =~= all.take(i + 1));
            }
            let id = scene.add(node);
            ids.push(id);
            proof {
                assert(ids@ =~= fresh_ids(start.next_id, (i + 1) as nat));
            }
            i += 1;
        }
        proof {
            assert(all.take(n as int) =~= all);
        }
        self.indicator_visible = true;
        self.indicator_node_ids = ids;
        true
    }

    /// Hide the interactive-mode visual indicator.
    ///
    /// Removes the border and label nodes from the scene.
    /// Returns `true` if the indicator was removed (was visible).
    pub fn hide_indicator<N>(&mut self, scene: &mut Scene<N>) -> (removed: bool)
        ensures
            removed == old(self)@.visible,
            (final(self)@, final(scene)@) == old(self)@.after_hide(old(scene)@),
            !removed ==> final(self)@ == old(self)@ && final(scene)@ == old(scene)@,
            removed ==> {
                &&& !final(self)@.visible
                &&& final(self)@.ids.len() == 0
                &&& final(scene)@ == old(scene)@.after_remove_all(old(self)@.ids)
            },
    {
        if !self.indicator_visible {
            return false;
        }
        let mut ids: Vec<NodeId> = Vec::new();
        std::mem::swap(&mut ids, &mut self.indicator_node_ids);
        crate::modules::remove_nodes(scene, &mut ids);
        self.indicator_visible = false;
        true
    }

    /// Whether the indicator is currently visible.
    pub fn indicator_visible(&self) -> (r: bool)
        ensures
            r == self@.visible,
    {
        self.indicator_visible
    }
}

/// Adding one more node after a batch is adding the longer batch.
proof fn add_all_snoc<N>(s: SceneView<N>, nodes: Seq<N>, node: N)
    ensures
        s.after_add_all(nodes).after_add(node) == s.after_add_all(nodes.push(node)),
    decreases nodes.len(),
{
    let p = nodes.push(node);
    if nodes.len() == 0 {
        assert(p.drop_first() =~= Seq::<N>::empty());
        assert(p[0] == node);
        assert(s.after_add_all(nodes) == s);
        assert(s.after_add(node).after_add_all(p.drop_first()) == s.after_add(node));
        assert(s.after_add_all(p) == s.after_add(p[0]).after_add_all(p.drop_first()));
    } else {
        add_all_snoc(s.after_add(nodes[0]), nodes.drop_first(), node);
        assert(p.drop_first() =~= nodes.drop_first().push(node));
        assert(p[0] == nodes[0]);
        assert(s.after_add_all(nodes) == s.after_add(nodes[0]).after_add_all(nodes.drop_first()));
        assert(s.after_add_all(p) == s.after_add(p[0]).after_add_all(p.drop_first()));
    }
}

// ─── Laws ───────────────────────────────────────────────────────────────────

/// Showing the indicator and then hiding it gives back the scene's nodes as
/// they were before it was shown.
pub proof fn indicator_round_trip<N>(before: SceneView<N>, nodes: Seq<N>)
    requires
        before.wf(),
        before.next_id + nodes.len() <= u32::MAX,
    ensures
        before.after_add_all(nodes).after_remove_all(fresh_ids(before.next_id, nodes.len())).entries
            == before.entries,
{
    crate::scene::add_all_then_remove_all_restores(before, nodes);
}

/// The indicator's lifecycle: showing it while it is shown changes
/// nothing; showing a hidden indicator and then hiding it returns the
/// manager to hidden with no nodes, and the scene to the nodes it had.
pub proof fn indicator_lifecycle<N>(m: InputManagerView, scene: SceneView<N>, nodes: Seq<N>, more: Seq<N>)
    requires
        !m.visible ==> m.ids.len() == 0,
        scene.wf(),
        scene.next_id + nodes.len() <= u32::MAX,
    ensures
        ({
            let (m1, s1) = m.after_show(scene, nodes);
            m1.after_show(s1, more) == (m1, s1)
        }),
        !m.visible ==> ({
            let (m1, s1) = m.after_show(scene, nodes);
            let (m2, s2) = m1.after_hide(s1);
            &&& m2 == m
            &&& s2.entries == scene.entries
        }),
{
    if !m.visible {
        assert(m.ids =~= Seq::<NodeId>::empty());
        indicator_round_trip(scene, nodes);
    }
}

} // verus!
