use glass::render::{acquire_action, AcquireAction, AcquireOutcome};

#[test]
fn acquired_texture_is_rendered() {
    assert_eq!(acquire_action(AcquireOutcome::Acquired, false), AcquireAction::Render);
    assert_eq!(acquire_action(AcquireOutcome::Acquired, true), AcquireAction::Render);
}

#[test]
fn lost_surface_is_retried_once() {
    assert_eq!(acquire_action(AcquireOutcome::LostOrOutdated, false), AcquireAction::ReconfigureAndRetry);
    assert_eq!(acquire_action(AcquireOutcome::LostOrOutdated, true), AcquireAction::Fail);
}

#[test]
fn timeout_skips_the_frame_unless_retrying() {
    assert_eq!(acquire_action(AcquireOutcome::Timeout, false), AcquireAction::SkipFrame);
    assert_eq!(acquire_action(AcquireOutcome::Timeout, true), AcquireAction::Fail);
}

#[test]
fn other_errors_fail() {
    assert_eq!(acquire_action(AcquireOutcome::Other, false), AcquireAction::Fail);
    assert_eq!(acquire_action(AcquireOutcome::Other, true), AcquireAction::Fail);
}
