use music::debounce::FingerTracker;

#[test]
fn one_bent_frame_does_not_hold() {
    let mut t = FingerTracker::new();
    assert_eq!(t.update([true; 5]), [false; 5]);
}

#[test]
fn two_bent_frames_hold() {
    let mut t = FingerTracker::new();
    t.update([true; 5]);
    assert_eq!(t.update([true; 5]), [true; 5]);
}

#[test]
fn release_after_two_open_frames_from_saturation() {
    let mut t = FingerTracker::new();
    for _ in 0..5 {
        t.update([true; 5]);
    }
    // counter saturated at 3: one open frame keeps the finger held
    assert_eq!(t.update([false; 5]), [true; 5]);
    // the second open frame releases it
    assert_eq!(t.update([false; 5]), [false; 5]);
}

#[test]
fn release_after_one_open_frame_when_just_held() {
    let mut t = FingerTracker::new();
    t.update([true; 5]);
    t.update([true; 5]);
    // counter at 2: one open frame brings it to 1, which releases
    assert_eq!(t.update([false; 5]), [false; 5]);
}

#[test]
fn alternating_frames_never_hold() {
    let mut t = FingerTracker::new();
    for k in 0..20 {
        let held = t.update([k % 2 == 0; 5]);
        assert_eq!(held, [false; 5]);
    }
}

#[test]
fn fingers_are_independent() {
    let mut t = FingerTracker::new();
    let raw = [true, false, true, false, true];
    t.update(raw);
    assert_eq!(t.update(raw), raw);
}

#[test]
fn reset_returns_to_rest() {
    let mut t = FingerTracker::new();
    t.update([true; 5]);
    t.update([true; 5]);
    t.reset();
    assert_eq!(t.update([true; 5]), [false; 5]);
    assert_eq!(t.update([true; 5]), [true; 5]);
}

#[test]
fn two_agreeing_frames_settle_from_any_state() {
    for warmup in 0..5usize {
        for &raw in &[true, false] {
            let mut t = FingerTracker::new();
            for _ in 0..warmup {
                t.update([true; 5]);
            }
            t.update([raw; 5]);
            assert_eq!(t.update([raw; 5]), [raw; 5]);
        }
    }
}

#[test]
fn one_bent_frame_after_release_does_not_hold() {
    let mut t = FingerTracker::new();
    assert_eq!(t.update([true; 5]), [false; 5]);
    assert_eq!(t.update([true; 5]), [true; 5]);
    assert_eq!(t.update([false; 5]), [false; 5]);
    assert_eq!(t.update([true; 5]), [false; 5]);
    assert_eq!(t.update([true; 5]), [true; 5]);
}

#[test]
fn release_restarts_the_count_from_saturation() {
    let mut t = FingerTracker::new();
    for _ in 0..4 {
        t.update([true; 5]);
    }
    t.update([false; 5]);
    assert_eq!(t.update([false; 5]), [false; 5]);
    assert_eq!(t.update([true; 5]), [false; 5]);
    assert_eq!(t.update([true; 5]), [true; 5]);
}
