//! Per-frame hand tracking decisions: when to rescan for palms, which hand's
//! debouncer and smoothing history an observation belongs to, and forgetting
//! a hand that left the picture.

use vstd::prelude::*;
use crate::debounce::{FingerTracker, FingerModel, finger_step, hand_wf, rest_model, FINGERS};

verus! {

/// Palms are searched for again at least every this many frames, so that a
/// second hand entering the picture is picked up.
pub const PALM_SCAN_INTERVAL: u64 = 12;

/// Whether a frame must run the palm detector: the scan interval elapsed, or
/// the last hand-pose pass was weak (a pose was lost or poorly recognised).
pub open spec fn rescan_due(frames: nat, last_scan: nat, weak: bool) -> bool {
    (if frames >= last_scan { frames - last_scan } else { 0 }) >= PALM_SCAN_INTERVAL as int
        || weak
}

/// A frame rescans exactly when at least `PALM_SCAN_INTERVAL` frames went by
/// since the last scan or the last pass was weak.
pub proof fn law_rescan_rule(frames: nat, last_scan: nat, weak: bool)
    requires
        last_scan <= frames,
    ensures
        rescan_due(frames, last_scan, weak) <==> (frames - last_scan >= 12 || weak),
{
}

/// A weak hand-pose pass makes the next frame rescan, whatever the interval.
pub proof fn law_weak_pass_forces_rescan(frames: nat, last_scan: nat)
    ensures
        rescan_due(frames, last_scan, true),
{
}

/// Between two palm scans at most `PALM_SCAN_INTERVAL` frames go by: a frame
/// that does not rescan lies less than the interval after the last scan.
pub proof fn law_scan_interval_bounded(frames: nat, last_scan: nat, weak: bool)
    requires
        last_scan <= frames,
        !rescan_due(frames, last_scan, weak),
    ensures
        frames - last_scan < PALM_SCAN_INTERVAL,
        !weak,
{
}

/// The tracking state of both hands across frames. `L` is the caller's
/// representation of a hand's smoothed landmarks.
pub struct HandTracking<L> {
    frame_count: u64,
    last_palm_scan: u64,
    last_pass_weak: bool,
    right_tracker: FingerTracker,
    left_tracker: FingerTracker,
    right_smooth: Option<L>,
    left_smooth: Option<L>,
    saw_right: bool,
    saw_left: bool,
}

impl<L> HandTracking<L> {
    /// Frames begun so far.
    pub closed spec fn frames(&self) -> nat {
        self.frame_count as nat
    }

    /// The frame number at which the palm detector last ran.
    pub closed spec fn last_scan(&self) -> nat {
        self.last_palm_scan as nat
    }

    /// Whether the last hand-pose pass was weak.
    pub closed spec fn weak(&self) -> bool {
        self.last_pass_weak
    }

    /// The debouncer model of the hand on the given side.
    pub closed spec fn fingers(&self, right: bool) -> Seq<FingerModel> {
        if right { self.right_tracker@ } else { self.left_tracker@ }
    }

    /// The smoothing history of the hand on the given side.
    pub closed spec fn history(&self, right: bool) -> Option<L> {
        if right { self.right_smooth } else { self.left_smooth }
    }

    /// Whether the hand on the given side was observed in the current frame.
    pub closed spec fn seen(&self, right: bool) -> bool {
        if right { self.saw_right } else { self.saw_left }
    }

    /// Whether a frame begun now rescans for palms.
    pub open spec fn rescan_now(&self) -> bool {
        rescan_due(self.frames(), self.last_scan(), self.weak())
    }

    /// The state invariant of the tracker.
    pub open spec fn wf(&self) -> bool {
        &&& self.last_scan() <= self.frames()
        &&& hand_wf(self.fingers(true))
        &&& hand_wf(self.fingers(false))
    }

    /// Nothing tracked yet: no frame begun, the last pass counts as confident,
    /// both hands at rest with no smoothing history.
    pub fn new() -> (t: Self)
        ensures
            t.wf(),
            t.frames() == 0,
            t.last_scan() == 0,
            !t.weak(),
            t.fingers(true) == rest_model(),
            t.fingers(false) == rest_model(),
            t.history(true) is None,
            t.history(false) is None,
            !t.seen(true),
            !t.seen(false),
    {
        HandTracking {
            frame_count: 0,
            last_palm_scan: 0,
            last_pass_weak: false,
            right_tracker: FingerTracker::new(),
            left_tracker: FingerTracker::new(),
            right_smooth: None,
            left_smooth: None,
            saw_right: false,
            saw_left: false,
        }
    }

    /// Starts a frame: decides whether the palm detector runs on it (and if
    /// so records the scan), counts the frame and clears the seen flags.
    pub fn begin_frame(&mut self) -> (rescan: bool)
        requires
            old(self).wf(),
            old(self).frames() < u64::MAX,
        ensures
            rescan == old(self).rescan_now(),
            final(self).wf(),
            final(self).frames() - final(self).last_scan() <= PALM_SCAN_INTERVAL,
            final(self).frames() == old(self).frames() + 1,
            final(self).last_scan() == (if rescan { old(self).frames() } else { old(self).last_scan() }),
            final(self).weak() == old(self).weak(),
            forall|r: bool| #[trigger] final(self).fingers(r) == old(self).fingers(r),
            forall|r: bool| #[trigger] final(self).history(r) == old(self).history(r),
            forall|r: bool| !(#[trigger] final(self).seen(r)),
    {
        let since = if self.frame_count >= self.last_palm_scan {
            self.frame_count - self.last_palm_scan
        } else {
            0
        };
        let rescan = since >= PALM_SCAN_INTERVAL || self.last_pass_weak;
        if rescan {
            self.last_palm_scan = self.frame_count;
        }
        self.frame_count = self.frame_count + 1;
        self.saw_right = false;
        self.saw_left = false;
        rescan
    }

    /// Records how the hand-pose pass of this frame went: one entry per pose
    /// that came back, `true` where the pose was lost or its confidence fell
    /// below the redetection threshold.
    pub fn record_pass(&mut self, weak_outcomes: &[bool])
        ensures
            final(self).weak() == (exists|i: int| 0 <= i < weak_outcomes@.len() && #[trigger] weak_outcomes@[i]),
            final(self).frames() == old(self).frames(),
            final(self).last_scan() == old(self).last_scan(),
            forall|r: bool| #[trigger] final(self).fingers(r) == old(self).fingers(r),
            forall|r: bool| #[trigger] final(self).history(r) == old(self).history(r),
            forall|r: bool| #[trigger] final(self).seen(r) == old(self).seen(r),
    {
        let mut weak = false;
        let mut i: usize = 0;
        while i < weak_outcomes.len()
            invariant
                0 <= i <= weak_outcomes@.len(),
                weak == (exists|j: int| 0 <= j < i && #[trigger] weak_outcomes@[j]),
            decreases weak_outcomes@.len() - i,
        {
            if weak_outcomes[i] {
                weak = true;
            }
            i += 1;
        }
        self.last_pass_weak = weak;
    }

    /// Frames begun so far.
    pub fn frame_count(&self) -> (n: u64)
        ensures
            n == self.frames(),
    {
        self.frame_count
    }

    /// The smoothing history of one side, to blend the new landmarks with.
    pub fn history_of(&self, right: bool) -> (h: &Option<L>)
        ensures
            *h == self.history(right),
    {
        if right { &self.right_smooth } else { &self.left_smooth }
    }

    /// Records one observed hand: its smoothed landmarks become that side's
    /// history, its raw bent flags step that side's debouncer, and the side
    /// counts as seen. Returns the debounced held flags.
    pub fn observe(&mut self, right: bool, landmarks: L, bent: [bool; 5]) -> (held: [bool; 5])
        requires
            old(self).wf(),
        ensures
            final(self).wf(),
            forall|i: int|
                0 <= i < FINGERS ==> #[trigger] final(self).fingers(right)[i] == finger_step(
                    old(self).fingers(right)[i],
                    bent@[i],
                ),
            forall|i: int| 0 <= i < FINGERS ==> #[trigger] held@[i] == final(self).fingers(right)[i].1,
            final(self).history(right) == Some(landmarks),
            final(self).seen(right),
            final(self).fingers(!right) == old(self).fingers(!right),
            final(self).history(!right) == old(self).history(!right),
            final(self).seen(!right) == old(self).seen(!right),
            final(self).frames() == old(self).frames(),
            final(self).last_scan() == old(self).last_scan(),
            final(self).weak() == old(self).weak(),
    {
        if right {
            let held = self.right_tracker.update(bent);
            self.right_smooth = Some(landmarks);
            self.saw_right = true;
            proof {
                assert(self.fingers(true) =~= self.right_tracker@);
            }
            held
        } else {
            let held = self.left_tracker.update(bent);
            self.left_smooth = Some(landmarks);
            self.saw_left = true;
            held
        }
    }

    /// Ends a frame: a hand that was not observed in it is forgotten, its
    /// debouncer back at rest and its smoothing history dropped.
    pub fn end_frame(&mut self)
        requires
            old(self).wf(),
        ensures
            final(self).wf(),
            forall|r: bool|
                #[trigger] final(self).fingers(r) == (if old(self).seen(r) {
                    old(self).fingers(r)
                } else {
                    rest_model()
                }),
            forall|r: bool|
                #[trigger] final(self).history(r) == (if old(self).seen(r) {
                    old(self).history(r)
                } else {
                    None
                }),
            forall|r: bool| #[trigger] final(self).seen(r) == old(self).seen(r),
            final(self).frames() == old(self).frames(),
            final(self).last_scan() == old(self).last_scan(),
            final(self).weak() == old(self).weak(),
    {
        if !self.saw_right {
            self.right_tracker.reset();
            self.right_smooth = None;
        }
        if !self.saw_left {
            self.left_tracker.reset();
            self.left_smooth = None;
        }
    }
}

} // verus!
