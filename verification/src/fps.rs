//! Frame-time ring buffer behind the overlay-only FPS counter.
//!
//! Stores the timestamps of the last [`FRAME_RING_LEN`] rendered frames
//! with no heap allocation in steady state, and selects the oldest and
//! newest timestamps of the window the FPS estimate is taken over.
use vstd::prelude::*;

verus! {

/// Number of frame timestamps kept.
pub const FRAME_RING_LEN: usize = 64;

/// The mathematical content of a [`FrameRing`].
pub struct FrameRingView<T> {
    /// The ring's slots.
    pub slots: Seq<T>,
    /// The slot the next frame is written to.
    pub write_idx: nat,
    /// Frames recorded since the last reset, saturating at `u32::MAX`.
    pub frame_count: nat,
    /// Every frame recorded since the last reset, in order.
    pub recorded: Seq<T>,
    /// The write slot at the last reset (0 for a new ring).
    pub base: nat,
}

/// The smaller of `a` and `b`.
pub open spec fn min_nat(a: nat, b: nat) -> nat {
    if a < b { a } else { b }
}

impl<T> FrameRingView<T> {
    /// The ring holds the most recent frames since the last reset: the
    /// `k`-th most recent one sits `k + 1` slots before the write slot.
    pub open spec fn wf(self) -> bool {
        &&& self.slots.len() == FRAME_RING_LEN
        &&& self.write_idx < FRAME_RING_LEN
        &&& self.base < FRAME_RING_LEN
        &&& self.write_idx == (self.base + self.recorded.len()) % (FRAME_RING_LEN as nat)
        &&& self.frame_count == min_nat(self.recorded.len(), u32::MAX as nat)
        &&& forall|k: int|
            0 <= k < min_nat(self.recorded.len(), FRAME_RING_LEN as nat) ==> #[trigger] self.recorded[self.recorded.len()
                - 1 - k] == self.slots[(self.base + self.recorded.len() - 1 - k) % (FRAME_RING_LEN as int)]
    }

    /// The number of frames the estimate spans.
    pub open spec fn window(self) -> nat {
        min_nat(self.frame_count, FRAME_RING_LEN as nat)
    }

    /// The oldest timestamp of the window: the slot about to be overwritten
    /// once the ring has wrapped, else the first slot.
    pub open spec fn oldest(self) -> T {
        if self.frame_count >= FRAME_RING_LEN {
            self.slots[self.write_idx as int]
        } else {
            self.slots[0]
        }
    }
}

/// Ring buffer of the timestamps of the most recent frames.
pub struct FrameRing<T> {
    /// Frame timestamps (ring buffer).
    frame_times: Vec<T>,
    /// Write index into the ring buffer.
    write_idx: usize,
    /// Number of frames recorded.
    frame_count: u32,
    recorded: Ghost<Seq<T>>,
    base: Ghost<nat>,
}

impl<T> View for FrameRing<T> {
    type V = FrameRingView<T>;

    closed spec fn view(&self) -> FrameRingView<T> {
        FrameRingView {
            slots: self.frame_times@,
            write_idx: self.write_idx as nat,
            frame_count: self.frame_count as nat,
            recorded: self.recorded@,
            base: self.base@,
        }
    }
}

impl<T: Copy> FrameRing<T> {
    /// Whether the ring is well formed (see [`FrameRingView::wf`]).
    pub open spec fn wf(&self) -> bool {
        self@.wf()
    }

    /// A ring with every slot set to `now` and no frame recorded.
    pub fn new(now: T) -> (r: Self)
        ensures
            r.wf(),
            r@.recorded.len() == 0,
            r@.base == 0,
            r@.slots == Seq::new(FRAME_RING_LEN as nat, |i: int| now),
    {
        let mut frame_times: Vec<T> = Vec::new();
        let mut i: usize = 0;
        while i < FRAME_RING_LEN
            invariant
                0 <= i <= FRAME_RING_LEN,
                frame_times@ == Seq::new(i as nat, |j: int| now),
            decreases FRAME_RING_LEN - i,
        {
            frame_times.push(now);
            i += 1;
            assert(frame_times@ =~= Seq::new(i as nat, |j: int| now));
        }
        FrameRing { frame_times, write_idx: 0, frame_count: 0, recorded: Ghost(Seq::empty()), base: Ghost(0) }
    }

    /// Record the timestamp of a rendered frame.
    pub fn record_frame(&mut self, t: T)
        requires
            old(self).wf(),
        ensures
            final(self).wf(),
            final(self)@.recorded == old(self)@.recorded.push(t),
            final(self)@.base == old(self)@.base,
    {
        let ghost old_view = self@;
        let w = self.write_idx;
        self.frame_times.set(w, t);
        self.write_idx = (w + 1) % FRAME_RING_LEN;
        self.frame_count = self.frame_count.saturating_add(1);
        self.recorded = Ghost(self.recorded@.push(t));
        proof {
            let v = self@;
            let len = v.recorded.len();
            let b = v.base as int;
            assert forall|k: int| 0 <= k < min_nat(len, FRAME_RING_LEN as nat) implies #[trigger] v.recorded[len - 1 - k]
                == v.slots[(b + len - 1 - k) % (FRAME_RING_LEN as int)] by {
                if k == 0 {
                    assert((b + len - 1) % 64 == w);
                } else {
                    let idx = (b + len - 1 - k) % 64;
                    assert(idx != w as int);
                    assert(v.slots[idx] == old_view.slots[idx]);
                    assert(v.recorded[len - 1 - k] == old_view.recorded[(len - 1) - 1 - (k - 1)]);
                    assert((b + (len - 1) - 1 - (k - 1)) % 64 == idx);
                }
            }
        }
    }

    /// Forget the recorded frames. The slots and the write position are
    /// kept: recording resumes where it stopped.
    pub fn reset(&mut self)
        requires
            old(self).wf(),
        ensures
            final(self).wf(),
            final(self)@.recorded.len() == 0,
            final(self)@.base == old(self)@.write_idx,
            final(self)@.slots == old(self)@.slots,
            final(self)@.write_idx == old(self)@.write_idx,
    {
        self.frame_count = 0;
        self.recorded = Ghost(Seq::empty());
        self.base = Ghost(self.write_idx as nat);
    }

    /// Number of frames recorded since the last reset (saturating).
    pub fn frame_count(&self) -> (r: u32)
        ensures
            r == self@.frame_count,
    {
        self.frame_count
    }

    /// The oldest and newest timestamps of the estimation window and the
    /// number of frames it spans, once it spans at least two frames.
    pub fn span(&self) -> (r: Option<(T, T, usize)>)
        requires
            self.wf(),
        ensures
            self@.window() < 2 ==> r is None,
            self@.window() >= 2 ==> r == Some((self@.oldest(), self@.recorded.last(), self@.window() as usize)),
    {
        let count: usize = if (self.frame_count as usize) < FRAME_RING_LEN {
            self.frame_count as usize
        } else {
            FRAME_RING_LEN
        };
        if count < 2 {
            return None;
        }
        let newest_idx = if self.write_idx == 0 { FRAME_RING_LEN - 1 } else { self.write_idx - 1 };
        let oldest_idx = if self.frame_count as usize >= FRAME_RING_LEN { self.write_idx } else { 0 };
        proof {
            let v = self@;
            let len = v.recorded.len();
            assert(len >= 1);
            assert(v.recorded[len - 1 - 0] == v.slots[(v.base + len - 1 - 0) % 64]);
            assert((v.base + len - 1) % 64 == newest_idx);
        }
        Some((self.frame_times[oldest_idx], self.frame_times[newest_idx], count))
    }
}

/// The window the estimate is taken over starts at the first frame of the
/// window — the frame recorded `window - 1` frames before the newest — for
/// a ring that was never reset or that has wrapped since its last reset.
pub proof fn oldest_is_window_start<T>(r: FrameRingView<T>)
    requires
        r.wf(),
        r.window() >= 2,
        r.base == 0 || r.recorded.len() >= FRAME_RING_LEN,
    ensures
        r.oldest() == r.recorded[r.recorded.len() - r.window()],
{
    let len = r.recorded.len();
    if r.frame_count >= FRAME_RING_LEN {
        assert(len >= 64);
        assert(r.recorded[len - 1 - 63] == r.slots[(r.base + len - 1 - 63) % 64]);
        assert((r.base + len - 1 - 63) % 64 == r.write_idx);
    } else {
        assert(len < 64);
        assert(r.base == 0);
        assert(r.recorded[len - 1 - (len - 1)] == r.slots[(r.base + len - 1 - (len - 1)) % 64]);
    }
}

} // verus!
