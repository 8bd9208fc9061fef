use ui_prefab::progress::{Completion, ProgressTracker, TrackerError};

#[test]
fn fresh_tracker_is_complete() {
    let tracker = ProgressTracker::new();
    assert_eq!(tracker.completion(), Completion::Complete);
    assert_eq!(tracker.num_pending(), 0);
    assert_eq!(tracker.num_succeeded(), 0);
    assert_eq!(tracker.num_failed(), 0);
    assert!(tracker.errors().is_empty());
    assert_eq!(tracker.headroom(), usize::MAX);
}

#[test]
fn pending_work_means_loading() {
    let mut tracker = ProgressTracker::new();
    tracker.register_pending();
    tracker.register_pending();
    assert_eq!(tracker.num_pending(), 2);
    assert_eq!(tracker.completion(), Completion::Loading);
    assert_eq!(tracker.headroom(), usize::MAX - 2);
}

#[test]
fn all_succeeded_means_complete() {
    let mut tracker = ProgressTracker::new();
    tracker.register_pending();
    tracker.register_pending();
    assert_eq!(tracker.mark_succeeded(), Ok(()));
    assert_eq!(tracker.completion(), Completion::Loading);
    assert_eq!(tracker.mark_succeeded(), Ok(()));
    assert_eq!(tracker.completion(), Completion::Complete);
    assert_eq!(tracker.num_pending(), 0);
    assert_eq!(tracker.num_succeeded(), 2);
}

#[test]
fn failure_wins_over_pending_work() {
    let mut tracker = ProgressTracker::new();
    tracker.register_pending();
    tracker.register_pending();
    assert_eq!(tracker.mark_failed("no such file".to_string()), Ok(()));
    assert_eq!(tracker.num_pending(), 1);
    assert_eq!(tracker.completion(), Completion::Failed);
}

#[test]
fn failure_is_sticky() {
    let mut tracker = ProgressTracker::new();
    tracker.register_pending();
    tracker.register_pending();
    assert_eq!(tracker.mark_failed("first".to_string()), Ok(()));
    assert_eq!(tracker.mark_succeeded(), Ok(()));
    assert_eq!(tracker.completion(), Completion::Failed);
    tracker.register_pending();
    assert_eq!(tracker.completion(), Completion::Failed);
    assert_eq!(tracker.mark_succeeded(), Ok(()));
    assert_eq!(tracker.completion(), Completion::Failed);
    assert_eq!(tracker.num_failed(), 1);
    assert_eq!(tracker.num_succeeded(), 2);
}

#[test]
fn complete_does_not_go_back_when_requests_end() {
    let mut tracker = ProgressTracker::new();
    tracker.register_pending();
    assert_eq!(tracker.mark_succeeded(), Ok(()));
    assert_eq!(tracker.completion(), Completion::Complete);
    assert_eq!(tracker.mark_succeeded(), Err(TrackerError::NothingPending));
    assert_eq!(tracker.mark_failed("stray".to_string()), Err(TrackerError::NothingPending));
    assert_eq!(tracker.completion(), Completion::Complete);
    assert_eq!(tracker.num_succeeded(), 1);
    assert_eq!(tracker.num_failed(), 0);
}

#[test]
fn marking_without_pending_is_refused() {
    let mut tracker = ProgressTracker::new();
    assert_eq!(tracker.mark_succeeded(), Err(TrackerError::NothingPending));
    assert_eq!(tracker.mark_failed("late".to_string()), Err(TrackerError::NothingPending));
    assert_eq!(tracker.completion(), Completion::Complete);
    assert_eq!(tracker.num_failed(), 0);
    assert_eq!(tracker.num_succeeded(), 0);
}

#[test]
fn failure_details_are_kept_in_order() {
    let mut tracker = ProgressTracker::new();
    tracker.register_pending();
    tracker.register_pending();
    tracker.register_pending();
    assert_eq!(tracker.mark_failed("first".to_string()), Ok(()));
    assert_eq!(tracker.mark_succeeded(), Ok(()));
    assert_eq!(tracker.mark_failed("second".to_string()), Ok(()));
    assert_eq!(tracker.errors(), &vec!["first".to_string(), "second".to_string()]);
    assert_eq!(tracker.num_failed(), 2);
    assert_eq!(tracker.num_pending(), 0);
}
