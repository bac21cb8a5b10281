use music::tracking::{HandTracking, PALM_SCAN_INTERVAL};

#[test]
fn first_scan_comes_after_the_interval() {
    let mut t: HandTracking<Vec<u8>> = HandTracking::new();
    for _ in 0..PALM_SCAN_INTERVAL {
        assert!(!t.begin_frame());
        t.record_pass(&[]);
        t.end_frame();
    }
    assert!(t.begin_frame());
}

#[test]
fn scans_repeat_every_interval() {
    let mut t: HandTracking<Vec<u8>> = HandTracking::new();
    let mut scans = Vec::new();
    for frame in 0..40u64 {
        if t.begin_frame() {
            scans.push(frame);
        }
        t.record_pass(&[false]);
        t.end_frame();
    }
    assert_eq!(scans, vec![12, 24, 36]);
}

#[test]
fn weak_pass_forces_rescan_next_frame() {
    let mut t: HandTracking<Vec<u8>> = HandTracking::new();
    assert!(!t.begin_frame());
    t.record_pass(&[false, true, false]);
    t.end_frame();
    assert!(t.begin_frame());
    t.record_pass(&[false]);
    t.end_frame();
    assert!(!t.begin_frame());
}

#[test]
fn empty_pass_is_not_weak() {
    let mut t: HandTracking<Vec<u8>> = HandTracking::new();
    t.begin_frame();
    t.record_pass(&[]);
    t.end_frame();
    assert!(!t.begin_frame());
}

#[test]
fn observed_hand_keeps_history_other_side_forgotten() {
    let mut t: HandTracking<Vec<u8>> = HandTracking::new();
    t.begin_frame();
    assert!(t.history_of(true).is_none());
    let held = t.observe(true, vec![1, 2, 3], [true; 5]);
    assert_eq!(held, [false; 5]);
    t.end_frame();
    assert_eq!(t.history_of(true), &Some(vec![1, 2, 3]));
    assert!(t.history_of(false).is_none());

    t.begin_frame();
    let held = t.observe(true, vec![4], [true; 5]);
    assert_eq!(held, [true; 5]);
    t.end_frame();
    assert_eq!(t.history_of(true), &Some(vec![4]));
}

#[test]
fn hand_leaving_resets_its_debouncer() {
    let mut t: HandTracking<Vec<u8>> = HandTracking::new();
    for _ in 0..2 {
        t.begin_frame();
        t.observe(false, vec![], [true; 5]);
        t.end_frame();
    }
    // the left hand is absent for a frame: forgotten
    t.begin_frame();
    t.observe(true, vec![], [false; 5]);
    t.end_frame();
    assert!(t.history_of(false).is_none());
    t.begin_frame();
    assert_eq!(t.observe(false, vec![], [true; 5]), [false; 5]);
    t.end_frame();
}

#[test]
fn two_hands_of_one_side_step_the_same_debouncer() {
    let mut t: HandTracking<u8> = HandTracking::new();
    t.begin_frame();
    assert_eq!(t.observe(true, 1, [true; 5]), [false; 5]);
    assert_eq!(t.observe(true, 2, [true; 5]), [true; 5]);
    t.end_frame();
    assert_eq!(t.history_of(true), &Some(2));
}
