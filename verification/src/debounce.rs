//! Schmitt-trigger debouncing of the five "finger held" flags of one hand.
//!
//! Each finger keeps an evidence counter: a bent frame raises it, an open
//! frame lowers it. The finger turns on when the counter reaches `COUNT_ON`
//! and off when it falls to `COUNT_OFF`; on release the counter restarts
//! from zero, so turning on always takes two bent frames in a row.

use vstd::prelude::*;

verus! {

/// Number of fingers tracked per hand (thumb to pinky).
pub const FINGERS: usize = 5;

/// Saturation limit of a finger's evidence counter.
pub const COUNT_MAX: u8 = 3;

/// A counter at or above this value turns the finger on.
pub const COUNT_ON: u8 = 2;

/// A counter at or below this value turns the finger off.
pub const COUNT_OFF: u8 = 1;

/// The abstract state of one finger: its evidence counter, its held flag, and
/// whether the previous frame showed it bent (`false` before any frame).
pub type FingerModel = (int, bool, bool);

/// The counter after one frame: up by one (saturating at `COUNT_MAX`) when the
/// finger looked bent, down by one (saturating at zero) otherwise.
pub open spec fn next_count(count: int, raw: bool) -> int {
    if raw {
        if count + 1 < COUNT_MAX as int { count + 1 } else { COUNT_MAX as int }
    } else {
        if count > 0 { count - 1 } else { 0 }
    }
}

/// One frame of the debouncer for a single finger: on at `COUNT_ON` or more;
/// off at `COUNT_OFF` or less, the counter restarting from zero when a held
/// finger is released; unchanged in between.
pub open spec fn finger_step(f: FingerModel, raw: bool) -> FingerModel {
    let c = next_count(f.0, raw);
    if c >= COUNT_ON as int {
        (c, true, raw)
    } else if c <= COUNT_OFF as int {
        (if f.1 { 0 } else { c }, false, raw)
    } else {
        (c, f.1, raw)
    }
}

/// A finger state that the debouncer can be in: a released finger with one
/// frame of evidence saw that frame bent.
pub open spec fn finger_wf(f: FingerModel) -> bool {
    &&& 0 <= f.0 <= COUNT_MAX as int
    &&& f.1 == (f.0 >= COUNT_ON as int)
    &&& (!f.1 && f.0 == 1) ==> f.2
}

/// A whole-hand model: five well-formed fingers.
pub open spec fn hand_wf(m: Seq<FingerModel>) -> bool {
    &&& m.len() == FINGERS
    &&& forall|i: int| 0 <= i < FINGERS ==> #[trigger] finger_wf(m[i])
}

/// A finger at rest: no evidence, released, no frame seen.
pub open spec fn rest_finger() -> FingerModel {
    (0int, false, false)
}

/// The model of a tracker at rest.
pub open spec fn rest_model() -> Seq<FingerModel> {
    Seq::new(FINGERS as nat, |i: int| rest_finger())
}

/// The finger state after a whole history of raw observations, oldest first.
pub open spec fn finger_run(f: FingerModel, raws: Seq<bool>) -> FingerModel
    decreases raws.len(),
{
    if raws.len() == 0 {
        f
    } else {
        finger_step(finger_run(f, raws.drop_last()), raws.last())
    }
}

/// One debouncer step keeps a finger in a reachable state.
pub proof fn law_step_keeps_wf(f: FingerModel, raw: bool)
    requires
        finger_wf(f),
    ensures
        finger_wf(finger_step(f, raw)),
{
}

/// A bent frame raises the counter by one, capped at `COUNT_MAX`: it never
/// lowers it, and it marks the frame as bent.
pub proof fn law_bent_frame_raises_counter(f: FingerModel)
    requires
        finger_wf(f),
    ensures
        finger_step(f, true).0 >= f.0,
        f.0 < 3 ==> finger_step(f, true).0 == f.0 + 1,
        f.0 == 3 ==> finger_step(f, true).0 == 3,
        finger_step(f, true).1 == (finger_step(f, true).0 >= 2),
        finger_step(f, true).2,
{
}

/// An open frame lowers the counter by one, not below zero; when that
/// releases a held finger the counter restarts from zero. It never raises the
/// counter and never turns a finger on.
pub proof fn law_open_frame_lowers_counter(f: FingerModel)
    requires
        finger_wf(f),
    ensures
        finger_step(f, false).0 <= f.0,
        f.0 == 3 ==> finger_step(f, false) == (2int, true, false),
        f.0 == 2 ==> finger_step(f, false) == (0int, false, false),
        f.0 <= 1 ==> finger_step(f, false) == (0int, false, false),
        f.1 ==> finger_step(f, false).1 == (f.0 == 3),
{
}

/// Three bent frames in a row saturate the counter from any state, and a
/// saturated finger stays held through one open frame.
pub proof fn law_three_bent_frames_saturate(f: FingerModel)
    requires
        finger_wf(f),
    ensures
        finger_step(finger_step(finger_step(f, true), true), true) == (3int, true, true),
        finger_step(finger_step(finger_step(finger_step(f, true), true), true), false).1,
{
}

/// A tracker at rest has every finger at zero evidence, released, with no
/// bent frame seen.
pub proof fn law_rest_is_zero()
    ensures
        rest_model().len() == 5,
        forall|i: int| 0 <= i < 5 ==> #[trigger] rest_model()[i] == (0int, false, false),
{
}

/// A released finger turns on only on a bent frame that follows a bent frame.
pub proof fn law_activation_takes_two_bent_frames(f: FingerModel, raw: bool)
    requires
        finger_wf(f),
        !f.1,
        finger_step(f, raw).1,
    ensures
        raw,
        f.2,
{
}

/// Two consecutive frames that agree settle the finger on what they showed:
/// two bent frames hold it, two open frames release it, from any state.
pub proof fn law_two_frames_settle(f: FingerModel, raw: bool)
    requires
        finger_wf(f),
    ensures
        finger_step(finger_step(f, raw), raw).1 == raw,
{
}

/// A single frame never moves a finger at rest.
pub proof fn law_one_frame_from_rest_is_not_enough(raw: bool)
    ensures
        finger_step(rest_finger(), raw) == (if raw { (1int, false, true) } else { (0int, false, false) }),
{
}

proof fn lemma_run_wf(f: FingerModel, raws: Seq<bool>)
    requires
        finger_wf(f),
    ensures
        finger_wf(finger_run(f, raws)),
    decreases raws.len(),
{
    if raws.len() > 0 {
        lemma_run_wf(f, raws.drop_last());
    }
}

/// Over any history: when a frame turns a released finger on, that frame and
/// the one before it (or, on the very first frame, the state's last frame)
/// were both bent.
pub proof fn law_activation_needs_two_bent_frames(f: FingerModel, raws: Seq<bool>, r: bool)
    requires
        finger_wf(f),
        !finger_run(f, raws).1,
        finger_run(f, raws.push(r)).1,
    ensures
        r,
        if raws.len() == 0 { f.2 } else { raws.last() },
        finger_wf(finger_run(f, raws.push(r))),
{
    lemma_run_wf(f, raws);
    assert(raws.push(r).drop_last() =~= raws);
    let m = finger_run(f, raws);
    law_activation_takes_two_bent_frames(m, r);
    if raws.len() > 0 {
        assert(m.2 == raws.last());
    }
}

/// Debounces the raw "finger bent" observations of one hand.
pub struct FingerTracker {
    counts: [u8; 5],
    states: [bool; 5],
    last_raw: Ghost<Seq<bool>>,
}

impl View for FingerTracker {
    type V = Seq<FingerModel>;

    closed spec fn view(&self) -> Seq<FingerModel> {
        Seq::new(FINGERS as nat, |i: int| (self.counts@[i] as int, self.states@[i], self.last_raw@[i]))
    }
}

impl FingerTracker {
    #[verifier::type_invariant]
    closed spec fn inv(self) -> bool {
        &&& self.last_raw@.len() == FINGERS
        &&& forall|i: int|
            0 <= i < FINGERS ==> {
                &&& #[trigger] self.counts@[i] <= COUNT_MAX
                &&& self.states@[i] == (self.counts@[i] >= COUNT_ON)
                &&& (!self.states@[i] && self.counts@[i] == 1) ==> self.last_raw@[i]
            }
    }

    /// A tracker at rest.
    pub fn new() -> (t: Self)
        ensures
            t@ == rest_model(),
            hand_wf(t@),
    {
        let t = FingerTracker {
            counts: [0; 5],
            states: [false; 5],
            last_raw: Ghost(Seq::new(FINGERS as nat, |i: int| false)),
        };
        assert(t@ =~= rest_model());
        t
    }

    /// Feeds one frame of raw observations (`raw[i]`: finger `i` looked bent)
    /// and returns the debounced held flags. A finger that was released turns
    /// on only when this frame and the previous one both showed it bent.
    pub fn update(&mut self, raw: [bool; 5]) -> (held: [bool; 5])
        ensures
            forall|i: int|
                0 <= i < FINGERS ==> #[trigger] final(self)@[i] == finger_step(old(self)@[i], raw@[i]),
            final(self)@.len() == FINGERS,
            hand_wf(final(self)@),
            forall|i: int| 0 <= i < FINGERS ==> #[trigger] held@[i] == final(self)@[i].1,
            forall|i: int|
                0 <= i < FINGERS && !old(self)@[i].1 && #[trigger] held@[i] ==> raw@[i] && old(self)@[i].2,
    {
        proof {
            use_type_invariant(&*self);
        }
        let ghost old_model = self@;
        let mut counts = self.counts;
        let mut states = self.states;
        let mut i: usize = 0;
        while i < FINGERS
            invariant
                0 <= i <= FINGERS,
                forall|j: int| 0 <= j < FINGERS ==> #[trigger] finger_wf(old_model[j]),
                old_model.len() == FINGERS,
                forall|j: int|
                    0 <= j < FINGERS ==> #[trigger] old_model[j] == (old(self).counts@[j] as int, old(self).states@[j], old(self).last_raw@[j]),
                forall|j: int|
                    0 <= j < i ==> (#[trigger] counts@[j] as int, states@[j], raw@[j]) == finger_step(old_model[j], raw@[j]),
                forall|j: int| i <= j < FINGERS ==> #[trigger] counts@[j] == old(self).counts@[j],
                forall|j: int| i <= j < FINGERS ==> #[trigger] states@[j] == old(self).states@[j],
                forall|j: int| 0 <= j < FINGERS ==> #[trigger] counts@[j] <= COUNT_MAX,
                old(self).last_raw@.len() == FINGERS,
            decreases FINGERS - i,
        {
            let c = counts[i];
            let was_held = states[i];
            let next: u8 = if raw[i] {
                if c + 1 < COUNT_MAX { c + 1 } else { COUNT_MAX }
            } else {
                if c > 0 { c - 1 } else { 0 }
            };
            if next >= COUNT_ON {
                counts[i] = next;
                states[i] = true;
            } else if next <= COUNT_OFF {
                counts[i] = if was_held { 0 } else { next };
                states[i] = false;
            } else {
                counts[i] = next;
            }
            proof {
                assert(old_model[i as int] == (c as int, was_held, old(self).last_raw@[i as int]));
            }
            i += 1;
        }
        *self = FingerTracker { counts, states, last_raw: Ghost(raw@) };
        proof {
            assert forall|i: int| 0 <= i < FINGERS implies #[trigger] self@[i] == finger_step(old(self)@[i], raw@[i]) by {
                assert(old(self)@[i] == old_model[i]);
                assert((counts@[i] as int, states@[i], raw@[i]) == finger_step(old_model[i], raw@[i]));
            }
            assert forall|i: int| 0 <= i < FINGERS implies #[trigger] finger_wf(self@[i]) by {
                assert(old(self)@[i] == old_model[i]);
                law_step_keeps_wf(old_model[i], raw@[i]);
            }
            assert forall|i: int| 0 <= i < FINGERS && !old(self)@[i].1 && #[trigger] states@[i] implies raw@[i] && old(self)@[i].2 by {
                assert(old(self)@[i] == old_model[i]);
                assert(self@[i] == finger_step(old(self)@[i], raw@[i]));
                law_activation_takes_two_bent_frames(old_model[i], raw@[i]);
            }
        }
        states
    }

    /// Returns the tracker to rest, as when the hand leaves the picture.
    pub fn reset(&mut self)
        ensures
            final(self)@ == rest_model(),
            hand_wf(final(self)@),
    {
        *self = FingerTracker {
            counts: [0; 5],
            states: [false; 5],
            last_raw: Ghost(Seq::new(FINGERS as nat, |i: int| false)),
        };
        assert(self@ =~= rest_model());
    }
}

} // verus!
