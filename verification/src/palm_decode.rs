//! Integer side of decoding the palm detector's output: which tensor holds
//! the boxes, how the box tensor is laid out per anchor, and the left-to-right
//! order in which the kept detections are reported.

use vstd::prelude::*;

verus! {

/// Values per anchor that decoding reads: box centre and size (4), then seven
/// landmarks of two coordinates each (14).
pub const VALUES_PER_ANCHOR: usize = 18;

/// Number of palm landmarks per detection.
pub const PALM_LANDMARKS: usize = 7;

/// Of the detector's first two output tensors, the one whose last dimension
/// is larger holds the boxes; on a tie the second does.
pub fn boxes_come_first(first_last_dim: i32, second_last_dim: i32) -> (first: bool)
    ensures
        first == (first_last_dim > second_last_dim),
{
    first_last_dim > second_last_dim
}

/// How the box tensor of `len` values is read: `count` anchors, each with
/// `stride` values.
#[derive(Clone, Copy, PartialEq, Eq, Debug, Structural)]
pub struct BoxLayout {
    pub count: usize,
    pub stride: usize,
    pub len: usize,
}

/// The anchors decoded: as many as there are both anchors and scores.
pub open spec fn decoded_count(anchors: int, scores: int) -> int {
    if anchors < scores { anchors } else { scores }
}

/// The values per anchor in a box tensor of `boxes` values.
pub open spec fn decoded_stride(anchors: int, scores: int, boxes: int) -> int {
    let n = decoded_count(anchors, scores);
    boxes / (if n > 1 { n } else { 1 })
}

impl BoxLayout {
    /// The anchors' rows fit in the tensor.
    pub open spec fn fits(&self) -> bool {
        &&& self.count >= 1
        &&& self.stride >= VALUES_PER_ANCHOR
        &&& self.count * self.stride <= self.len
    }

    /// Where the values of anchor `i` start in the box tensor; the eighteen
    /// values decoding reads from there all lie inside the tensor.
    pub fn row_start(&self, i: usize) -> (start: usize)
        requires
            self.fits(),
            i < self.count,
        ensures
            start == i * self.stride,
            start + VALUES_PER_ANCHOR <= self.len,
    {
        proof {
            assert(i * self.stride + self.stride <= self.count * self.stride) by (nonlinear_arith)
                requires
                    i < self.count,
            ;
            assert(i * self.stride + VALUES_PER_ANCHOR <= self.len);
        }
        i * self.stride
    }
}

/// The layout of the box tensor, or `None` when the output cannot be decoded
/// (no anchor to decode, or fewer than eighteen values per anchor); decoding
/// then reports no palm.
pub fn output_layout(anchors: usize, scores: usize, boxes: usize) -> (layout: Option<BoxLayout>)
    ensures
        layout is None <==> (decoded_count(anchors as int, scores as int) == 0
            || decoded_stride(anchors as int, scores as int, boxes as int) < VALUES_PER_ANCHOR),
        layout matches Some(l) ==> l.count == decoded_count(anchors as int, scores as int)
            && l.stride == decoded_stride(anchors as int, scores as int, boxes as int)
            && l.len == boxes && l.fits(),
{
    let count = if anchors < scores { anchors } else { scores };
    let divisor = if count > 1 { count } else { 1 };
    let stride = boxes / divisor;
    if stride < VALUES_PER_ANCHOR || count == 0 {
        None
    } else {
        proof {
            assert(count * stride <= boxes) by (nonlinear_arith)
                requires
                    count >= 1,
                    stride == boxes / count,
            ;
        }
        Some(BoxLayout { count, stride, len: boxes })
    }
}

/// Item `p` goes before item `q`: smaller key, or equal key and earlier.
pub open spec fn goes_before(keys: Seq<i32>, p: int, q: int) -> bool {
    keys[p] < keys[q] || (keys[p] == keys[q] && p < q)
}

/// `order` lists indices into `keys` by ascending key, ties kept in their
/// original order.
pub open spec fn stably_sorted(keys: Seq<i32>, order: Seq<usize>) -> bool {
    forall|a: int, b: int|
        0 <= a < b < order.len() ==> goes_before(keys, #[trigger] order[a] as int, #[trigger] order[b] as int)
}

/// `order` lists every index of `keys` exactly once.
pub open spec fn is_permutation_of_indices(order: Seq<usize>, n: int) -> bool {
    &&& order.len() == n
    &&& forall|a: int| 0 <= a < order.len() ==> #[trigger] order[a] < n
    &&& forall|j: int| 0 <= j < n ==> #[trigger] order.contains(j as usize)
}

/// The decoded count is the smaller of the anchor and score counts, and the
/// stride is the whole number of values per decoded anchor: the rows fit in
/// the tensor and one more value per row would not.
pub proof fn law_layout_arithmetic(anchors: int, scores: int, boxes: int)
    requires
        anchors >= 0,
        scores >= 0,
        boxes >= 0,
    ensures
        decoded_count(anchors, scores) <= anchors,
        decoded_count(anchors, scores) <= scores,
        decoded_count(anchors, scores) == anchors || decoded_count(anchors, scores) == scores,
        decoded_count(anchors, scores) >= 1 ==> decoded_count(anchors, scores) * decoded_stride(anchors, scores, boxes) <= boxes
            && boxes < decoded_count(anchors, scores) * (decoded_stride(anchors, scores, boxes) + 1),
        decoded_count(anchors, scores) == 0 ==> decoded_stride(anchors, scores, boxes) == boxes,
{
    let n = decoded_count(anchors, scores);
    if n >= 1 {
        let q = boxes / n;
        assert(n * q <= boxes && boxes < n * (q + 1)) by (nonlinear_arith)
            requires
                n >= 1,
                boxes >= 0,
                q == boxes / n,
        ;
    }
}

/// In a stable order the keys never decrease, and indices with equal keys
/// keep their original order.
pub proof fn law_stable_order_means(keys: Seq<i32>, order: Seq<usize>)
    requires
        stably_sorted(keys, order),
    ensures
        forall|a: int, b: int|
            0 <= a < b < order.len() ==> keys[#[trigger] order[a] as int] <= keys[#[trigger] order[b] as int],
        forall|a: int, b: int|
            0 <= a < b < order.len() && keys[order[a] as int] == keys[order[b] as int] ==> #[trigger] order[a]
                < #[trigger] order[b],
{
    assert forall|a: int, b: int| 0 <= a < b < order.len() implies keys[#[trigger] order[a] as int] <= keys[#[trigger] order[b] as int] by {
        assert(goes_before(keys, order[a] as int, order[b] as int));
    }
    assert forall|a: int, b: int| 0 <= a < b < order.len() && keys[order[a] as int] == keys[order[b] as int] implies #[trigger] order[a] < #[trigger] order[b] by {
        assert(goes_before(keys, order[a] as int, order[b] as int));
    }
}

/// A stable sort lists no index twice.
pub proof fn law_stable_order_has_no_repeats(keys: Seq<i32>, order: Seq<usize>)
    requires
        stably_sorted(keys, order),
    ensures
        forall|a: int, b: int| 0 <= a < b < order.len() ==> #[trigger] order[a] != #[trigger] order[b],
{
}

/// The order in which detections are reported: by the left edge of their box
/// (`keys[i]` for detection `i`), left to right, detections with the same
/// left edge in the order they were found.
pub fn order_by_left(keys: &[i32]) -> (order: Vec<usize>)
    ensures
        is_permutation_of_indices(order@, keys@.len() as int),
        stably_sorted(keys@, order@),
{
    let mut order: Vec<usize> = Vec::new();
    let mut i: usize = 0;
    while i < keys.len()
        invariant
            0 <= i <= keys@.len(),
            is_permutation_of_indices(order@, i as int),
            stably_sorted(keys@, order@),
        decreases keys@.len() - i,
    {
        let key = keys[i];
        let mut pos: usize = 0;
        while pos < order.len() && keys[order[pos]] <= key
            invariant
                0 <= pos <= order@.len(),
                i < keys@.len(),
                key == keys@[i as int],
                is_permutation_of_indices(order@, i as int),
                forall|a: int| 0 <= a < pos ==> keys@[#[trigger] order@[a] as int] <= key,
            decreases order@.len() - pos,
        {
            pos += 1;
        }
        let ghost prev = order@;
        proof {
            assert forall|b: int| pos <= b < prev.len() implies keys@[#[trigger] prev[b] as int] > key by {
                if pos < prev.len() {
                    assert(goes_before(keys@, prev[pos as int] as int, prev[b] as int) || b == pos);
                }
            }
        }
        order.insert(pos, i);
        proof {
            prev.insert_ensures(pos as int, i);
            assert forall|a: int, b: int| 0 <= a < b < order@.len() implies goes_before(keys@, #[trigger] order@[a] as int, #[trigger] order@[b] as int) by {
                if b < pos {
                    assert(order@[a] == prev[a] && order@[b] == prev[b]);
                } else if b == pos {
                    assert(order@[a] == prev[a]);
                } else if a < pos {
                    assert(order@[a] == prev[a] && order@[b] == prev[b - 1]);
                } else if a == pos {
                    assert(order@[b] == prev[b - 1]);
                } else {
                    assert(order@[a] == prev[a - 1] && order@[b] == prev[b - 1]);
                }
            }
            assert forall|j: int| 0 <= j < i + 1 implies #[trigger] order@.contains(j as usize) by {
                if j == i {
                    assert(order@[pos as int] == i);
                } else {
                    assert(prev.contains(j as usize));
                    let a = choose|a: int| 0 <= a < prev.len() && prev[a] == j as usize;
                    if a < pos {
                        assert(order@[a] == j as usize);
                    } else {
                        assert(order@[a + 1] == j as usize);
                    }
                }
            }
            assert forall|a: int| 0 <= a < order@.len() implies #[trigger] order@[a] < i + 1 by {
                if a < pos {
                    assert(order@[a] == prev[a]);
                } else if a > pos {
                    assert(order@[a] == prev[a - 1]);
                }
            }
        }
        i += 1;
    }
    order
}

} // verus!
