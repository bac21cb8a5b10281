use music::anchors::{anchor_cells, AnchorCell, ANCHOR_COUNT};
use music::geometry::{ceil_sqrt, clamp_rect, crop_origin, rect_from_edges, split_padding, square_padding, Padding, Rect};

#[test]
fn anchors_layout() {
    let a = anchor_cells();
    assert_eq!(a.len(), ANCHOR_COUNT);
    assert_eq!(a.len(), 2016);
    assert_eq!(a[0], AnchorCell { col: 0, row: 0, grid: 24 });
    assert_eq!(a[1], AnchorCell { col: 0, row: 0, grid: 24 });
    assert_eq!(a[2], AnchorCell { col: 1, row: 0, grid: 24 });
    assert_eq!(a[48], AnchorCell { col: 0, row: 1, grid: 24 });
    assert_eq!(a[1151], AnchorCell { col: 23, row: 23, grid: 24 });
    assert_eq!(a[1152], AnchorCell { col: 0, row: 0, grid: 12 });
    assert_eq!(a[1157], AnchorCell { col: 0, row: 0, grid: 12 });
    assert_eq!(a[1158], AnchorCell { col: 1, row: 0, grid: 12 });
    assert_eq!(a[2015], AnchorCell { col: 11, row: 11, grid: 12 });
    assert!(a.iter().all(|c| c.col < c.grid && c.row < c.grid));
}

#[test]
fn anchor_centres_match_the_float_formula() {
    let a = anchor_cells();
    let centre = |c: &AnchorCell| ((c.col as f32 + 0.5) / c.grid as f32, (c.row as f32 + 0.5) / c.grid as f32);
    assert_eq!(centre(&a[2]), (1.5 / 24.0, 0.5 / 24.0));
    assert_eq!(centre(&a[2015]), (11.5 / 12.0, 11.5 / 12.0));
}

#[test]
fn clamp_rect_inside() {
    assert_eq!(clamp_rect(10, 20, 30, 50, 100, 100), Rect { x: 10, y: 20, width: 20, height: 30 });
}

#[test]
fn clamp_rect_clips_to_image() {
    assert_eq!(clamp_rect(-5, -7, 120, 90, 100, 80), Rect { x: 0, y: 0, width: 100, height: 80 });
}

#[test]
fn clamp_rect_outside_is_empty() {
    let r = clamp_rect(150, 10, 200, 20, 100, 100);
    assert_eq!(r, Rect { x: 100, y: 10, width: 0, height: 10 });
    let r = clamp_rect(30, 10, 20, 20, 100, 100);
    assert_eq!(r.width, 0);
    let r = clamp_rect(i32::MIN, i32::MIN, i32::MAX, i32::MAX, 64, 48);
    assert_eq!(r, Rect { x: 0, y: 0, width: 64, height: 48 });
}

#[test]
fn rect_from_edges_at_least_one_pixel() {
    assert_eq!(rect_from_edges(3, 4, 10, 20), Rect { x: 3, y: 4, width: 7, height: 16 });
    assert_eq!(rect_from_edges(3, 4, 3, 2), Rect { x: 3, y: 4, width: 1, height: 1 });
}

#[test]
fn split_padding_halves() {
    assert_eq!(split_padding(0), (0, 0));
    assert_eq!(split_padding(5), (2, 3));
    assert_eq!(split_padding(8), (4, 4));
}

#[test]
fn ceil_sqrt_values() {
    assert_eq!(ceil_sqrt(0), 0);
    assert_eq!(ceil_sqrt(1), 1);
    assert_eq!(ceil_sqrt(2), 2);
    assert_eq!(ceil_sqrt(4), 2);
    assert_eq!(ceil_sqrt(5), 3);
    assert_eq!(ceil_sqrt(25), 5);
    assert_eq!(ceil_sqrt(26), 6);
    assert_eq!(ceil_sqrt(u32::MAX), 65536);
}

#[test]
fn ceil_sqrt_matches_float_ceiling() {
    for w in (0..2000).step_by(37) {
        for h in (0..2000).step_by(41) {
            let n = (w * w + h * h) as u32;
            let expected = ((n as f64).sqrt().ceil()) as u32;
            assert_eq!(ceil_sqrt(n), expected);
        }
    }
}

#[test]
fn square_padding_for_rotation_uses_diagonal() {
    let (side, pad) = square_padding(3, 4, true);
    assert_eq!(side, 5);
    assert_eq!(pad, Padding { top: 0, bottom: 1, left: 1, right: 1 });
}

#[test]
fn square_padding_uses_longer_side() {
    let (side, pad) = square_padding(3, 4, false);
    assert_eq!(side, 4);
    assert_eq!(pad, Padding { top: 0, bottom: 0, left: 0, right: 1 });
    let (side, pad) = square_padding(10, 3, false);
    assert_eq!(side, 10);
    assert_eq!(pad, Padding { top: 3, bottom: 4, left: 0, right: 0 });
}

#[test]
fn crop_origin_moves_back_by_padding() {
    let r = Rect { x: 40, y: 7, width: 10, height: 20 };
    let p = Padding { top: 9, bottom: 9, left: 5, right: 6 };
    assert_eq!(crop_origin(&r, &p), (35, -2));
}
