//! Integer rectangle and padding arithmetic of the detectors' pre- and
//! post-processing. Callers round floating-point box edges to integers
//! (near edges down, far edges up) and hand the integers over.

use vstd::prelude::*;

verus! {

/// An axis-aligned pixel rectangle: top-left corner and size.
#[derive(Clone, Copy, PartialEq, Eq, Debug, Structural)]
pub struct Rect {
    pub x: i32,
    pub y: i32,
    pub width: i32,
    pub height: i32,
}

/// The padding that centres an image in a larger one: rows added above and
/// below, columns added left and right.
#[derive(Clone, Copy, PartialEq, Eq, Debug, Structural)]
pub struct Padding {
    pub top: i32,
    pub bottom: i32,
    pub left: i32,
    pub right: i32,
}

/// `v` clamped into `[0, max]`, the lower bound applied first (so a negative
/// `max` wins).
pub open spec fn clamp_to(v: int, max: int) -> int {
    let lo = if v > 0 { v } else { 0 };
    if lo < max { lo } else { max }
}

/// `v` but at least `floor`.
pub open spec fn at_least(v: int, floor: int) -> int {
    if v > floor { v } else { floor }
}

/// Clamping keeps a value inside `[0, max]` (for `max >= 0`), leaves a value
/// already inside unchanged, and moves one outside to the nearer end;
/// `at_least` never goes below its floor and keeps values above it.
pub proof fn law_clamp(v: int, max: int, floor: int)
    ensures
        max >= 0 ==> 0 <= clamp_to(v, max) <= max,
        0 <= v <= max ==> clamp_to(v, max) == v,
        v < 0 && max >= 0 ==> clamp_to(v, max) == 0,
        v > max && max >= 0 ==> clamp_to(v, max) == max,
        at_least(v, floor) >= floor,
        v >= floor ==> at_least(v, floor) == v,
        v < floor ==> at_least(v, floor) == floor,
{
}

fn clamp_i32(v: i32, max: i32) -> (r: i32)
    ensures
        r == clamp_to(v as int, max as int),
{
    let lo = if v > 0 { v } else { 0 };
    if lo < max { lo } else { max }
}

/// The detection box with edges `left..right`, `top..bottom` clipped to an
/// image of `max_width` by `max_height`; a box that falls outside gets a zero
/// width or height.
pub fn clamp_rect(left: i32, top: i32, right: i32, bottom: i32, max_width: i32, max_height: i32) -> (r: Rect)
    ensures
        r.x == clamp_to(left as int, max_width as int),
        r.y == clamp_to(top as int, max_height as int),
        r.width == at_least(clamp_to(right as int, max_width as int) - r.x, 0),
        r.height == at_least(clamp_to(bottom as int, max_height as int) - r.y, 0),
{
    let l = clamp_i32(left, max_width);
    let t = clamp_i32(top, max_height);
    let rr = clamp_i32(right, max_width);
    let b = clamp_i32(bottom, max_height);
    let w = if rr - l > 0 { rr - l } else { 0 };
    let h = if b - t > 0 { b - t } else { 0 };
    Rect { x: l, y: t, width: w, height: h }
}

/// The rectangle with edges `left..right`, `top..bottom`, at least one pixel
/// wide and high.
pub fn rect_from_edges(left: i32, top: i32, right: i32, bottom: i32) -> (r: Rect)
    requires
        i32::MIN <= right - left <= i32::MAX,
        i32::MIN <= bottom - top <= i32::MAX,
    ensures
        r == (Rect { x: left, y: top, width: at_least(right - left, 1) as i32, height: at_least(bottom - top, 1) as i32 }),
{
    let w = right - left;
    let h = bottom - top;
    Rect { x: left, y: top, width: if w > 1 { w } else { 1 }, height: if h > 1 { h } else { 1 } }
}

/// Splits `total` padding into a leading half (rounded down) and the rest.
pub fn split_padding(total: i32) -> (parts: (i32, i32))
    requires
        total >= 0,
    ensures
        parts.0 == total / 2,
        parts.1 == total - total / 2,
        parts.0 + parts.1 == total,
        0 <= parts.0 <= parts.1 <= parts.0 + 1,
{
    let before = total / 2;
    (before, total - before)
}

/// The smallest `r` with `r * r >= n`.
pub fn ceil_sqrt(n: u32) -> (r: u32)
    ensures
        r * r >= n,
        r == 0 || (r - 1) * (r - 1) < n,
        r <= 65536,
{
    let mut lo: u64 = 0;
    let mut hi: u64 = 65536;
    assert(hi * hi > n) by (nonlinear_arith)
        requires
            hi == 65536,
            n <= u32::MAX,
    ;
    while hi - lo > 1
        invariant
            lo < hi <= 65536,
            lo * lo <= n,
            hi * hi > n,
        decreases hi - lo,
    {
        let mid = lo + (hi - lo) / 2;
        assert(mid * mid <= 65536 * 65536) by (nonlinear_arith)
            requires
                mid < 65536,
        ;
        if mid * mid <= n as u64 {
            lo = mid;
        } else {
            hi = mid;
        }
    }
    if lo * lo == n as u64 {
        assert(lo == 0 || (lo - 1) * (lo - 1) < lo * lo) by (nonlinear_arith);
        lo as u32
    } else {
        assert(hi == lo + 1);
        (lo + 1) as u32
    }
}

/// The padding that centres an image of `width` by `height` in a square,
/// together with the square's side: the longer side, or when the square must
/// hold every rotation of the image, the diagonal rounded up.
pub fn square_padding(width: i32, height: i32, for_rotation: bool) -> (res: (i32, Padding))
    requires
        width >= 0,
        height >= 0,
        for_rotation ==> width * width + height * height <= i32::MAX,
    ensures
        for_rotation ==> res.0 * res.0 >= width * width + height * height,
        for_rotation ==> res.0 == 0 || (res.0 - 1) * (res.0 - 1) < width * width + height * height,
        !for_rotation ==> res.0 == (if width > height { width } else { height }),
        res.1.top == (res.0 - height) / 2,
        res.1.bottom == (res.0 - height) - (res.0 - height) / 2,
        res.1.left == (res.0 - width) / 2,
        res.1.right == (res.0 - width) - (res.0 - width) / 2,
        res.1.top >= 0,
        res.1.left >= 0,
        height + res.1.top + res.1.bottom == res.0,
        width + res.1.left + res.1.right == res.0,
{
    let side: i32 = if for_rotation {
        let sq = (width * width + height * height) as u32;
        let r = ceil_sqrt(sq);
        proof {
            assert(width <= r) by (nonlinear_arith)
                requires
                    r * r >= width * width + height * height,
                    width >= 0,
                    height >= 0,
                    r >= 0,
            ;
            assert(height <= r) by (nonlinear_arith)
                requires
                    r * r >= width * width + height * height,
                    width >= 0,
                    height >= 0,
                    r >= 0,
            ;
            assert(r <= 46341) by (nonlinear_arith)
                requires
                    r == 0 || (r - 1) * (r - 1) < width * width + height * height,
                    width * width + height * height <= i32::MAX,
                    r >= 0,
            ;
        }
        r as i32
    } else if width > height {
        width
    } else {
        height
    };
    let (top, bottom) = split_padding(side - height);
    let (left, right) = split_padding(side - width);
    (side, Padding { top, bottom, left, right })
}

/// Where the padded crop's origin lies in the source image: the crop's
/// corner moved back by the left and top padding.
pub fn crop_origin(crop: &Rect, pad: &Padding) -> (o: (i64, i64))
    ensures
        o.0 == crop.x - pad.left,
        o.1 == crop.y - pad.top,
{
    (crop.x as i64 - pad.left as i64, crop.y as i64 - pad.top as i64)
}

} // verus!
