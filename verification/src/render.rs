//! The renderer's policy for acquiring the next surface texture.
//!
//! A lost or outdated surface is reconfigured and the acquisition retried
//! once; a timeout skips the frame; any other error, or a failed retry,
//! fails the render.
use vstd::prelude::*;

verus! {

/// How an attempt to acquire the next surface texture went.
#[derive(Debug, Clone, Copy, PartialEq, Eq, Structural)]
pub enum AcquireOutcome {
    /// A texture was acquired.
    Acquired,
    /// The surface was lost or is outdated.
    LostOrOutdated,
    /// Acquiring timed out.
    Timeout,
    /// Any other surface error.
    Other,
}

/// What the renderer does after an acquisition attempt.
#[derive(Debug, Clone, Copy, PartialEq, Eq, Structural)]
pub enum AcquireAction {
    /// Draw the frame, present it, then clear the scene's dirty flags.
    Render,
    /// Reconfigure the surface and try once more.
    ReconfigureAndRetry,
    /// Skip this frame; the render succeeds without drawing.
    SkipFrame,
    /// Fail the render.
    Fail,
}

/// The action after an attempt with outcome `o`; `retried` tells whether the
/// attempt was the retry after a reconfiguration.
pub open spec fn action_after(o: AcquireOutcome, retried: bool) -> AcquireAction {
    match o {
        AcquireOutcome::Acquired => AcquireAction::Render,
        AcquireOutcome::LostOrOutdated => if retried {
            AcquireAction::Fail
        } else {
            AcquireAction::ReconfigureAndRetry
        },
        AcquireOutcome::Timeout => if retried {
            AcquireAction::Fail
        } else {
            AcquireAction::SkipFrame
        },
        AcquireOutcome::Other => AcquireAction::Fail,
    }
}

/// Decide what to do after an acquisition attempt: render an acquired
/// texture; on a first lost or outdated surface, reconfigure and retry; on a
/// first timeout, skip the frame; fail on any other error and on any error
/// of the retry.
pub fn acquire_action(o: AcquireOutcome, retried: bool) -> (a: AcquireAction)
    ensures
        a == action_after(o, retried),
{
    match o {
        AcquireOutcome::Acquired => AcquireAction::Render,
        AcquireOutcome::LostOrOutdated => if retried {
            AcquireAction::Fail
        } else {
            AcquireAction::ReconfigureAndRetry
        },
        AcquireOutcome::Timeout => if retried {
            AcquireAction::Fail
        } else {
            AcquireAction::SkipFrame
        },
        AcquireOutcome::Other => AcquireAction::Fail,
    }
}

/// A render retries at most once: the retry never asks for another retry.
pub proof fn retry_is_last(o: AcquireOutcome)
    ensures
        action_after(o, true) != AcquireAction::ReconfigureAndRetry,
        action_after(o, true) != AcquireAction::SkipFrame,
{
}

} // verus!
