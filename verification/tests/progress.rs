use download_manager::progress::can_measure;
use download_manager::ProgressTracker;

#[test]
fn a_new_tracker_starts_at_the_saved_percent() {
    let tracker = ProgressTracker::new(333, Some(1000));
    assert_eq!(tracker.received_bytes, 333);
    assert_eq!(tracker.total_bytes, Some(1000));
    assert_eq!(tracker.last_emitted_percent, 33);
    assert_eq!(tracker.last_emitted_bytes, 333);
    assert_eq!(ProgressTracker::new(5, Some(0)).last_emitted_percent, 0);
    assert_eq!(ProgressTracker::new(5, None).last_emitted_percent, 0);
}

#[test]
fn known_size_emits_when_the_percent_changes() {
    let mut tracker = ProgressTracker::new(0, Some(1000));
    tracker.advance(9);
    assert!(!tracker.should_emit());
    tracker.advance(1);
    assert!(tracker.should_emit());
    tracker.mark_emitted();
    assert_eq!(tracker.last_emitted_percent, 1);
    assert_eq!(tracker.last_emitted_bytes, 10);
    assert!(!tracker.should_emit());
    tracker.advance(9);
    assert!(!tracker.should_emit());
    tracker.advance(11);
    assert!(tracker.should_emit());
}

#[test]
fn a_complete_download_of_known_size_emits_each_percent_once() {
    let mut tracker = ProgressTracker::new(0, Some(3));
    tracker.advance(2);
    assert!(!tracker.is_complete());
    tracker.advance(1);
    assert!(tracker.is_complete());
    assert!(tracker.should_emit());
    tracker.mark_emitted();
    assert_eq!(tracker.last_emitted_percent, 100);
    assert!(!tracker.should_emit());
    tracker.advance(3);
    assert!(tracker.should_emit());
    tracker.mark_emitted();
    assert_eq!(tracker.last_emitted_percent, 200);
    assert!(!tracker.should_emit());
}

#[test]
fn a_hundred_percent_are_emitted_once() {
    let mut tracker = ProgressTracker::new(0, Some(100));
    tracker.advance(100);
    assert!(tracker.should_emit());
    tracker.mark_emitted();
    assert!(!tracker.should_emit());
    tracker.advance(0);
    assert!(!tracker.should_emit());
    // A download that starts complete has nothing new to report.
    assert!(!ProgressTracker::new(100, Some(100)).should_emit());
}

#[test]
fn unknown_size_emits_at_the_threshold() {
    assert_eq!(ProgressTracker::BYTES_THRESHOLD, 1048576);
    let mut tracker = ProgressTracker::new(100, None);
    tracker.advance(1048575);
    assert!(!tracker.should_emit());
    tracker.advance(1);
    assert!(tracker.should_emit());
    assert!(!tracker.is_complete());
    tracker.mark_emitted();
    assert_eq!(tracker.last_emitted_bytes, 1048676);
    assert_eq!(tracker.last_emitted_percent, 0);
    assert!(!tracker.should_emit());
}

#[test]
fn a_stated_zero_is_complete_from_the_start() {
    let mut tracker = ProgressTracker::new(0, Some(0));
    assert!(tracker.is_complete());
    assert!(!tracker.should_emit());
    tracker.advance(1048576);
    assert!(tracker.should_emit());
    tracker.mark_emitted();
    assert!(!tracker.should_emit());
}

#[test]
fn percents_can_be_computed_up_to_a_hundredth_of_the_range() {
    assert!(can_measure(184467440737095516, Some(1)));
    assert!(!can_measure(184467440737095517, Some(1)));
    assert!(can_measure(184467440737095517, Some(0)));
    assert!(can_measure(18446744073709551615, None));
    let tracker = ProgressTracker::new(184467440737095516, Some(18446744073709551615));
    assert_eq!(tracker.last_emitted_percent, 0);
}
