//! Which notes sound: the five voices of each hand follow that hand's held
//! fingers, in a register chosen by the hand's height in the picture.

use vstd::prelude::*;

verus! {

/// The octave a hand plays in: `High` doubles the base pitch (wrist in the
/// top third of the picture), `Middle` keeps it, `Low` halves it (bottom third).
#[derive(Clone, Copy, PartialEq, Eq, Debug, Structural)]
pub enum Register {
    High,
    Middle,
    Low,
}

/// The controlled state of one voice: whether it sounds, and in which register.
#[derive(Clone, Copy, PartialEq, Eq, Debug, Structural)]
pub struct OscState {
    pub active: bool,
    pub register: Register,
}

/// What one tracked hand asks of its voices.
#[derive(Clone, Copy, Debug)]
pub struct HandVoicing {
    pub is_right: bool,
    pub register: Register,
    pub held: [bool; 5],
}

/// A voice at start-up: silent, at the base pitch.
pub open spec fn idle_voice() -> OscState {
    OscState { active: false, register: Register::Middle }
}

/// Five voices after a hand drove them.
pub open spec fn driven(held: Seq<bool>, register: Register) -> Seq<OscState> {
    Seq::new(5, |i: int| OscState { active: held[i], register })
}

/// Five voices after they were silenced: nothing sounds, registers are kept.
pub open spec fn silenced(states: Seq<OscState>) -> Seq<OscState> {
    Seq::new(5, |i: int| OscState { active: false, register: states[i].register })
}

/// The last hand of the given side in a frame's list, if any.
pub open spec fn last_hand_of(hands: Seq<HandVoicing>, right: bool) -> Option<HandVoicing>
    decreases hands.len(),
{
    if hands.len() == 0 {
        None
    } else if hands.last().is_right == right {
        Some(hands.last())
    } else {
        last_hand_of(hands.drop_last(), right)
    }
}

/// The voices of one side after a frame: those of the last hand of that side,
/// or silence when the side had no hand.
pub open spec fn side_after(old_states: Seq<OscState>, hands: Seq<HandVoicing>, right: bool) -> Seq<OscState> {
    match last_hand_of(hands, right) {
        Some(h) => driven(h.held@, h.register),
        None => silenced(old_states),
    }
}

/// The last hand of a side is a hand of that side in the list with no hand
/// of that side after it; there is none exactly when the side has no hand.
pub proof fn law_last_hand_of(hands: Seq<HandVoicing>, right: bool)
    ensures
        (last_hand_of(hands, right) is None) <==> (forall|j: int| 0 <= j < hands.len() ==> (#[trigger] hands[j]).is_right != right),
        last_hand_of(hands, right) is Some ==> exists|j: int|
            0 <= j < hands.len() && #[trigger] hands[j] == last_hand_of(hands, right)->0 && hands[j].is_right == right
                && forall|l: int| j < l < hands.len() ==> (#[trigger] hands[l]).is_right != right,
    decreases hands.len(),
{
    if hands.len() > 0 {
        let prev = hands.drop_last();
        law_last_hand_of(prev, right);
        let n = hands.len() - 1;
        if hands.last().is_right == right {
            assert(hands[n] == hands.last());
        } else {
            assert(forall|j: int| 0 <= j < prev.len() ==> prev[j] == hands[j]);
            if last_hand_of(prev, right) is Some {
                let j = choose|j: int|
                    0 <= j < prev.len() && #[trigger] prev[j] == last_hand_of(prev, right)->0 && prev[j].is_right == right
                        && forall|l: int| j < l < prev.len() ==> (#[trigger] prev[l]).is_right != right;
                assert(hands[j] == prev[j]);
                assert forall|l: int| j < l < hands.len() implies (#[trigger] hands[l]).is_right != right by {
                    if l < n {
                        assert(hands[l] == prev[l]);
                    }
                }
            } else {
                assert forall|j: int| 0 <= j < hands.len() implies (#[trigger] hands[j]).is_right != right by {
                    if j < n {
                        assert(hands[j] == prev[j]);
                    }
                }
            }
        }
    }
}

/// Driving sets each voice to its finger and the hand's register; silencing
/// stops every voice and keeps its register; an idle voice is silent at the
/// base pitch.
pub proof fn law_driven_and_silenced(held: Seq<bool>, register: Register, states: Seq<OscState>, i: int)
    requires
        0 <= i < 5,
    ensures
        driven(held, register).len() == 5,
        driven(held, register)[i] == (OscState { active: held[i], register }),
        silenced(states).len() == 5,
        silenced(states)[i] == (OscState { active: false, register: states[i].register }),
        idle_voice() == (OscState { active: false, register: Register::Middle }),
{
}

/// A side that had no hand in the frame is silent afterwards.
pub proof fn law_absent_side_is_silent(old_states: Seq<OscState>, hands: Seq<HandVoicing>, right: bool)
    requires
        last_hand_of(hands, right) is None,
    ensures
        forall|i: int| 0 <= i < 5 ==> !(#[trigger] side_after(old_states, hands, right)[i]).active,
{
}

/// Voice `i` of a side sounds exactly when the last hand of that side in the
/// frame holds finger `i`, and plays in that hand's register.
pub proof fn law_voice_follows_last_hand(old_states: Seq<OscState>, hands: Seq<HandVoicing>, right: bool, i: int)
    requires
        0 <= i < 5,
        last_hand_of(hands, right) is Some,
    ensures
        side_after(old_states, hands, right)[i].active == last_hand_of(hands, right)->0.held@[i],
        side_after(old_states, hands, right)[i].register == last_hand_of(hands, right)->0.register,
{
}

/// A hand of one side never changes what the other side plays.
pub proof fn law_sides_are_independent(old_states: Seq<OscState>, hands: Seq<HandVoicing>, h: HandVoicing)
    ensures
        side_after(old_states, hands.push(h), !h.is_right) == side_after(old_states, hands, !h.is_right),
{
    assert(hands.push(h).drop_last() =~= hands);
}

/// Silencing twice is silencing once.
pub proof fn law_silence_idempotent(states: Seq<OscState>)
    ensures
        silenced(silenced(states)) == silenced(states),
{
    assert(silenced(silenced(states)) =~= silenced(states));
}

/// Sets the voices of one hand: voice `i` sounds exactly when finger `i` is
/// held, all in the hand's register.
pub fn drive_hand(states: &mut [OscState; 5], held: [bool; 5], register: Register)
    ensures
        final(states)@ == driven(held@, register),
{
    let mut i: usize = 0;
    while i < 5
        invariant
            0 <= i <= 5,
            forall|j: int| 0 <= j < i ==> #[trigger] states@[j] == (OscState { active: held@[j], register }),
        decreases 5 - i,
    {
        states[i] = OscState { active: held[i], register };
        i += 1;
    }
    assert(states@ =~= driven(held@, register));
}

/// Stops every voice of one hand, keeping their registers.
pub fn silence(states: &mut [OscState; 5])
    ensures
        final(states)@ == silenced(old(states)@),
{
    let mut i: usize = 0;
    while i < 5
        invariant
            0 <= i <= 5,
            forall|j: int| 0 <= j < i ==> #[trigger] states@[j] == (OscState { active: false, register: old(states)@[j].register }),
            forall|j: int| i <= j < 5 ==> #[trigger] states@[j] == old(states)@[j],
        decreases 5 - i,
    {
        let register = states[i].register;
        states[i] = OscState { active: false, register };
        i += 1;
    }
    assert(states@ =~= silenced(old(states)@));
}

/// The voices of both hands.
pub struct VoiceBank {
    pub right: [OscState; 5],
    pub left: [OscState; 5],
}

impl VoiceBank {
    /// All ten voices idle.
    pub fn new() -> (b: Self)
        ensures
            forall|i: int| 0 <= i < 5 ==> #[trigger] b.right@[i] == idle_voice(),
            forall|i: int| 0 <= i < 5 ==> #[trigger] b.left@[i] == idle_voice(),
    {
        let v = OscState { active: false, register: Register::Middle };
        VoiceBank { right: [v; 5], left: [v; 5] }
    }

    /// Applies one frame's hands, in order: each hand drives the voices of its
    /// side, and a side that had no hand falls silent.
    pub fn update(&mut self, hands: &[HandVoicing])
        ensures
            final(self).right@ == side_after(old(self).right@, hands@, true),
            final(self).left@ == side_after(old(self).left@, hands@, false),
    {
        let mut saw_right = false;
        let mut saw_left = false;
        let mut k: usize = 0;
        while k < hands.len()
            invariant
                0 <= k <= hands@.len(),
                saw_right == (last_hand_of(hands@.take(k as int), true) is Some),
                saw_left == (last_hand_of(hands@.take(k as int), false) is Some),
                saw_right ==> self.right@ == side_after(old(self).right@, hands@.take(k as int), true),
                !saw_right ==> self.right@ == old(self).right@,
                saw_left ==> self.left@ == side_after(old(self).left@, hands@.take(k as int), false),
                !saw_left ==> self.left@ == old(self).left@,
            decreases hands@.len() - k,
        {
            let hand = hands[k];
            proof {
                assert(hands@.take(k + 1).drop_last() =~= hands@.take(k as int));
                assert(hands@.take(k + 1).last() == hand);
            }
            if hand.is_right {
                drive_hand(&mut self.right, hand.held, hand.register);
                saw_right = true;
            } else {
                drive_hand(&mut self.left, hand.held, hand.register);
                saw_left = true;
            }
            k += 1;
        }
        proof {
            assert(hands@.take(hands@.len() as int) =~= hands@);
        }
        if !saw_right {
            silence(&mut self.right);
        }
        if !saw_left {
            silence(&mut self.left);
        }
    }
}

} // verus!
