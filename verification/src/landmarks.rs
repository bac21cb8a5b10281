//! The hand model's landmark layout: which landmarks are fingertips and
//! finger joints, how the skeleton is drawn, which note each finger plays,
//! and reading landmark lists out of flat model outputs.

use vstd::prelude::*;

verus! {

/// Landmarks per hand in the hand-pose model's output.
pub const HAND_LANDMARKS: usize = 21;

/// Values the hand-pose model emits per hand: three coordinates per landmark.
pub const HAND_VALUES: usize = 63;

/// Landmark index of each fingertip, thumb to pinky.
pub const TIPS: [usize; 5] = [4, 8, 12, 16, 20];

/// Landmark index of the joint below each fingertip (IP / PIP), thumb to
/// pinky. A finger counts as bent when its tip is not above this joint.
pub const BENDS: [usize; 5] = [3, 6, 10, 14, 18];

/// The fingertip landmark of finger `i`.
pub open spec fn tip_of(i: int) -> int {
    4 * i + 4
}

/// The landmark that finger `i`'s tip is compared with.
pub open spec fn bend_of(i: int) -> int {
    if i == 0 { 3 } else { 4 * i + 2 }
}

/// Each finger's landmarks are its own: finger `i`'s chain in the hand model
/// runs over landmarks `4i+1 ..= 4i+4` from the knuckle out, the tip is the
/// chain's last landmark, and the compared joint is the one below it (for the
/// thumb, whose chain is shorter, the joint just below the tip; for the other
/// fingers, the middle joint two below the tip).
pub proof fn law_finger_landmarks_are_its_own(i: int)
    requires
        0 <= i < 5,
    ensures
        tip_of(i) == 4 * i + 4,
        bend_of(i) == (if i == 0 { 3 } else { 4 * i + 2 }),
        4 * i + 1 <= bend_of(i) < tip_of(i),
        i > 0 ==> tip_of(i) == tip_of(i - 1) + 4,
        tip_of(i) == TIPS@[i] && bend_of(i) == BENDS@[i],
{
}

/// The notes: the right hand plays C D E F G and the left hand B A G F E,
/// thumb to pinky.
pub proof fn law_notes(i: int)
    requires
        0 <= i < 5,
    ensures
        note_of(true, i) == seq!['C', 'D', 'E', 'F', 'G'][i],
        note_of(false, i) == seq!['B', 'A', 'G', 'F', 'E'][i],
{
}

/// Fingertip and joint of a finger.
pub fn finger_landmarks(i: usize) -> (lm: (usize, usize))
    requires
        i < 5,
    ensures
        lm.0 == tip_of(i as int),
        lm.1 == bend_of(i as int),
        lm == (TIPS@[i as int], BENDS@[i as int]),
        lm.1 < lm.0 < HAND_LANDMARKS,
{
    (TIPS[i], BENDS[i])
}

/// The bones of the hand skeleton, as pairs of landmark indices: the five
/// finger chains from the wrist, then across the knuckles.
pub fn skeleton() -> (edges: Vec<(usize, usize)>)
    ensures
        edges@.len() == 23,
        forall|k: int| 0 <= k < 20 ==> #[trigger] edges@[k] == (
            if k % 4 == 0 { 0usize } else { (k as usize) },
            (k + 1) as usize,
        ),
        edges@[20] == (5usize, 9usize),
        edges@[21] == (9usize, 13usize),
        edges@[22] == (13usize, 17usize),
        forall|k: int| 0 <= k < 23 ==> #[trigger] edges@[k].0 < HAND_LANDMARKS && edges@[k].1 < HAND_LANDMARKS,
{
    let mut edges: Vec<(usize, usize)> = Vec::new();
    let mut k: usize = 0;
    while k < 20
        invariant
            0 <= k <= 20,
            k % 4 == 0,
            edges@.len() == k,
            forall|j: int| 0 <= j < k ==> #[trigger] edges@[j] == (
                if j % 4 == 0 { 0usize } else { (j as usize) },
                (j + 1) as usize,
            ),
        decreases 20 - k,
    {
        edges.push((0, k + 1));
        edges.push((k + 1, k + 2));
        edges.push((k + 2, k + 3));
        edges.push((k + 3, k + 4));
        k += 4;
    }
    edges.push((5, 9));
    edges.push((9, 13));
    edges.push((13, 17));
    edges
}

/// The note each finger plays. Right hand, thumb to pinky: C D E F G.
/// Left hand, thumb to pinky: B A G F E.
pub open spec fn note_of(is_right: bool, finger: int) -> char {
    if is_right {
        if finger == 0 { 'C' } else if finger == 1 { 'D' } else if finger == 2 { 'E' } else if finger == 3 { 'F' } else { 'G' }
    } else {
        if finger == 0 { 'B' } else if finger == 1 { 'A' } else if finger == 2 { 'G' } else if finger == 3 { 'F' } else { 'E' }
    }
}

/// The name of the note finger `finger` of the given hand plays.
pub fn note_letter(is_right: bool, finger: usize) -> (c: char)
    requires
        finger < 5,
    ensures
        c == note_of(is_right, finger as int),
{
    let right = ['C', 'D', 'E', 'F', 'G'];
    let left = ['B', 'A', 'G', 'F', 'E'];
    if is_right { right[finger] } else { left[finger] }
}

/// How a fingertip is marked in the preview.
#[derive(Clone, Copy, PartialEq, Eq, Debug, Structural)]
pub enum TipMarker {
    /// A held finger of the right hand: large, labelled with its note.
    HeldRight,
    /// A held finger of the left hand: large, labelled with its note.
    HeldLeft,
    /// A raised finger: small and grey, unlabelled.
    Idle,
}

/// The marker of a fingertip.
pub fn tip_marker(held: bool, is_right: bool) -> (m: TipMarker)
    ensures
        m == (if !held { TipMarker::Idle } else if is_right { TipMarker::HeldRight } else { TipMarker::HeldLeft }),
{
    if held {
        if is_right { TipMarker::HeldRight } else { TipMarker::HeldLeft }
    } else {
        TipMarker::Idle
    }
}

/// Radius in pixels of a fingertip marker.
pub fn marker_radius(m: TipMarker) -> (r: i32)
    ensures
        r == (if m == TipMarker::Idle { 5i32 } else { 10i32 }),
{
    match m {
        TipMarker::Idle => 5,
        _ => 10,
    }
}

/// Picks `points[ids[k]]` for every `k`, or `None` when an id is out of range.
pub fn select_landmarks<T: Copy>(points: &[T], ids: &[usize]) -> (sel: Option<Vec<T>>)
    ensures
        sel is None <==> exists|k: int| 0 <= k < ids@.len() && #[trigger] ids@[k] >= points@.len(),
        sel matches Some(v) ==> v@.len() == ids@.len()
            && forall|k: int| 0 <= k < ids@.len() ==> #[trigger] v@[k] == points@[ids@[k] as int],
{
    let mut out: Vec<T> = Vec::new();
    let mut k: usize = 0;
    while k < ids.len()
        invariant
            0 <= k <= ids@.len(),
            out@.len() == k,
            forall|j: int| 0 <= j < k ==> #[trigger] ids@[j] < points@.len(),
            forall|j: int| 0 <= j < k ==> #[trigger] out@[j] == points@[ids@[j] as int],
        decreases ids@.len() - k,
    {
        let id = ids[k];
        if id >= points.len() {
            return None;
        }
        out.push(points[id]);
        k += 1;
    }
    Some(out)
}

/// The first 63 values of a hand-pose output grouped into 21 landmarks of
/// three coordinates, or `None` when fewer than 63 values came back.
pub fn landmark_triples<T: Copy>(values: &[T]) -> (lms: Option<Vec<(T, T, T)>>)
    ensures
        lms is None <==> values@.len() < HAND_VALUES,
        lms matches Some(v) ==> v@.len() == HAND_LANDMARKS
            && forall|k: int| 0 <= k < HAND_LANDMARKS ==> #[trigger] v@[k] == (
                values@[3 * k],
                values@[3 * k + 1],
                values@[3 * k + 2],
            ),
{
    if values.len() < HAND_VALUES {
        return None;
    }
    let mut out: Vec<(T, T, T)> = Vec::new();
    let mut k: usize = 0;
    while k < HAND_LANDMARKS
        invariant
            0 <= k <= HAND_LANDMARKS,
            values@.len() >= HAND_VALUES,
            out@.len() == k,
            forall|j: int| 0 <= j < k ==> #[trigger] out@[j] == (
                values@[3 * j],
                values@[3 * j + 1],
                values@[3 * j + 2],
            ),
        decreases HAND_LANDMARKS - k,
    {
        out.push((values[3 * k], values[3 * k + 1], values[3 * k + 2]));
        k += 1;
    }
    Some(out)
}

} // verus!
