use music::capture::{BackendProbe, stop_after_send, stop_on_command, CaptureCounter, CommandPoll, FrameDecision, SendOutcome};
use music::landmarks::{
    finger_landmarks, landmark_triples, marker_radius, note_letter, select_landmarks, skeleton, tip_marker, TipMarker,
    BENDS, TIPS,
};
use music::palm_decode::{boxes_come_first, order_by_left, output_layout, BoxLayout};
use music::session::{key_action, on_capture_wait, CaptureWait, KeyAction, LoopStep, RecorderPoll, Session};

#[test]
fn layout_of_full_output() {
    let l = output_layout(2016, 2016, 2016 * 18).unwrap();
    assert_eq!(l, BoxLayout { count: 2016, stride: 18, len: 2016 * 18 });
    assert_eq!(l.row_start(2015), 2015 * 18);
}

#[test]
fn layout_uses_fewer_scores() {
    let l = output_layout(2016, 10, 10 * 20 + 3).unwrap();
    assert_eq!(l.count, 10);
    assert_eq!(l.stride, 20);
}

#[test]
fn layout_refuses_short_rows_and_empty_scores() {
    assert_eq!(output_layout(2016, 0, 100), None);
    assert_eq!(output_layout(0, 10, 1000), None);
    assert_eq!(output_layout(10, 5, 89), None);
    assert!(output_layout(10, 5, 90).is_some());
    assert_eq!(output_layout(1, 1, 17), None);
}

#[test]
fn box_tensor_has_longer_last_dimension() {
    assert!(boxes_come_first(18, 1));
    assert!(!boxes_come_first(1, 18));
    assert!(!boxes_come_first(5, 5));
}

#[test]
fn order_by_left_is_stable() {
    assert_eq!(order_by_left(&[5, 1, 5, 0]), vec![3, 1, 0, 2]);
    assert_eq!(order_by_left(&[]), Vec::<usize>::new());
    assert_eq!(order_by_left(&[2, 2, 2]), vec![0, 1, 2]);
    assert_eq!(order_by_left(&[3, 2, 1]), vec![2, 1, 0]);
}

#[test]
fn order_by_left_matches_std_stable_sort() {
    let keys = [7, -3, 7, 0, 12, -3, 0, 7, 1];
    let mut expected: Vec<usize> = (0..keys.len()).collect();
    expected.sort_by(|a, b| keys[*a].cmp(&keys[*b]));
    assert_eq!(order_by_left(&keys), expected);
}

#[test]
fn finger_layout() {
    assert_eq!(TIPS, [4, 8, 12, 16, 20]);
    assert_eq!(BENDS, [3, 6, 10, 14, 18]);
    assert_eq!(finger_landmarks(0), (4, 3));
    assert_eq!(finger_landmarks(4), (20, 18));
}

#[test]
fn skeleton_edges() {
    let expected: Vec<(usize, usize)> = vec![
        (0, 1), (1, 2), (2, 3), (3, 4),
        (0, 5), (5, 6), (6, 7), (7, 8),
        (0, 9), (9, 10), (10, 11), (11, 12),
        (0, 13), (13, 14), (14, 15), (15, 16),
        (0, 17), (17, 18), (18, 19), (19, 20),
        (5, 9), (9, 13), (13, 17),
    ];
    assert_eq!(skeleton(), expected);
}

#[test]
fn notes_per_finger() {
    let right: String = (0..5).map(|i| note_letter(true, i)).collect();
    let left: String = (0..5).map(|i| note_letter(false, i)).collect();
    assert_eq!(right, "CDEFG");
    assert_eq!(left, "BAGFE");
}

#[test]
fn tip_markers() {
    assert_eq!(tip_marker(true, true), TipMarker::HeldRight);
    assert_eq!(tip_marker(true, false), TipMarker::HeldLeft);
    assert_eq!(tip_marker(false, true), TipMarker::Idle);
    assert_eq!(marker_radius(TipMarker::Idle), 5);
    assert_eq!(marker_radius(TipMarker::HeldLeft), 10);
}

#[test]
fn select_landmarks_by_id() {
    let pts = [10, 11, 12, 13, 14, 15, 16];
    assert_eq!(select_landmarks(&pts, &[0, 1, 2, 3, 4, 5, 6]), Some(pts.to_vec()));
    assert_eq!(select_landmarks(&pts, &[6, 0]), Some(vec![16, 10]));
    assert_eq!(select_landmarks(&pts[..5], &[0, 1, 2, 3, 4, 5, 6]), None);
}

#[test]
fn landmark_triples_need_63_values() {
    let v: Vec<f32> = (0..62).map(|x| x as f32).collect();
    assert_eq!(landmark_triples(&v), None);
    let v: Vec<f32> = (0..70).map(|x| x as f32).collect();
    let t = landmark_triples(&v).unwrap();
    assert_eq!(t.len(), 21);
    assert_eq!(t[0], (0.0, 1.0, 2.0));
    assert_eq!(t[20], (60.0, 61.0, 62.0));
}

#[test]
fn capture_counter_ids_and_logs() {
    let mut c = CaptureCounter::new();
    assert!(c.waiting_for_first());
    for k in 1..=120u64 {
        let d = c.on_read(true);
        assert_eq!(d, FrameDecision::Skip { log: k % 60 == 0 });
        assert!(!c.waiting_for_first());
    }
    assert_eq!(c.on_read(false), FrameDecision::Deliver { id: 0, first: true });
    assert_eq!(c.on_read(true), FrameDecision::Skip { log: false });
    assert_eq!(c.on_read(false), FrameDecision::Deliver { id: 1, first: false });
    assert_eq!(c.on_read(false), FrameDecision::Deliver { id: 2, first: false });
}

#[test]
fn capture_stops() {
    assert!(stop_on_command(CommandPoll::Shutdown));
    assert!(stop_on_command(CommandPoll::Disconnected));
    assert!(!stop_on_command(CommandPoll::Timeout));
    assert!(stop_after_send(SendOutcome::Disconnected));
    assert!(!stop_after_send(SendOutcome::Full));
    assert!(!stop_after_send(SendOutcome::Sent));
}

#[test]
fn keys() {
    assert_eq!(key_action('q' as i32), KeyAction::Quit);
    assert_eq!(key_action(27), KeyAction::Quit);
    assert_eq!(key_action('r' as i32), KeyAction::ToggleRecording);
    assert_eq!(key_action(-1), KeyAction::Nothing);
    assert_eq!(key_action('Q' as i32), KeyAction::Nothing);
}

#[test]
fn capture_wait_steps() {
    assert_eq!(on_capture_wait(CaptureWait::Frame), LoopStep::Process);
    assert_eq!(on_capture_wait(CaptureWait::Ended), LoopStep::Stop);
    assert_eq!(on_capture_wait(CaptureWait::Disconnected), LoopStep::Stop);
    assert_eq!(on_capture_wait(CaptureWait::Failed), LoopStep::FailWithCameraError);
    assert_eq!(on_capture_wait(CaptureWait::TimedOut), LoopStep::FailTimedOut);
}

#[test]
fn session_recorder_lifecycle() {
    let mut s = Session::new();
    let p = s.on_frame();
    assert!(p.start_recorder && p.record);
    let p = s.on_frame();
    assert!(!p.start_recorder && p.record);
    assert!(!s.on_key('r' as i32));
    assert!(!s.on_frame().record);
    assert!(!s.on_key('r' as i32));
    assert!(s.on_frame().record);
    assert!(s.on_recorder_poll(RecorderPoll::Empty));
    assert!(!s.on_frame().start_recorder);
    assert!(!s.on_recorder_poll(RecorderPoll::Failed));
    assert!(s.on_recorder_poll(RecorderPoll::Finished));
    assert!(s.on_frame().start_recorder);
    assert!(s.on_recorder_poll(RecorderPoll::Disconnected));
    assert!(s.on_frame().start_recorder);
    assert!(s.on_key(27));
}

#[test]
fn backend_probe_reports_latest_failure() {
    let mut p: BackendProbe<&str> = BackendProbe::new();
    assert!(!p.record(Err("first")));
    assert!(!p.record(Err("second")));
    assert!(p.record(Ok(())));
    assert_eq!(p.into_error(), Some("second"));
    let p: BackendProbe<&str> = BackendProbe::new();
    assert_eq!(p.into_error(), None);
}
