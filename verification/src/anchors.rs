//! The anchor grid of the palm detector: two anchors on each cell of a 24x24
//! grid, then six on each cell of a 12x12 grid. An anchor's centre is the
//! middle of its cell, `((col + 1/2) / grid, (row + 1/2) / grid)` in units of
//! the input size; the cell is kept as integers so the centre stays exact.

use vstd::prelude::*;

verus! {

/// Cells per side of the fine grid.
pub const FINE_GRID: u32 = 24;

/// Anchors on each cell of the fine grid.
pub const FINE_PER_CELL: u32 = 2;

/// Cells per side of the coarse grid.
pub const COARSE_GRID: u32 = 12;

/// Anchors on each cell of the coarse grid.
pub const COARSE_PER_CELL: u32 = 6;

/// Number of anchors on the fine grid (24 * 24 * 2).
pub const FINE_ANCHORS: usize = 1152;

/// Number of anchors in all (1152 + 12 * 12 * 6).
pub const ANCHOR_COUNT: usize = 2016;

/// The grid cell whose centre an anchor sits at.
#[derive(Clone, Copy, PartialEq, Eq, Debug, Structural)]
pub struct AnchorCell {
    pub col: u32,
    pub row: u32,
    pub grid: u32,
}

/// The anchor with index `k`: the fine grid row by row, each cell repeated
/// twice, then the coarse grid row by row, each cell repeated six times.
pub open spec fn anchor_at(k: int) -> AnchorCell {
    if k < FINE_ANCHORS as int {
        let cell = k / FINE_PER_CELL as int;
        AnchorCell {
            col: (cell % FINE_GRID as int) as u32,
            row: (cell / FINE_GRID as int) as u32,
            grid: FINE_GRID,
        }
    } else {
        let cell = (k - FINE_ANCHORS as int) / COARSE_PER_CELL as int;
        AnchorCell {
            col: (cell % COARSE_GRID as int) as u32,
            row: (cell / COARSE_GRID as int) as u32,
            grid: COARSE_GRID,
        }
    }
}

/// The fine grid, in closed form: anchor `k < 1152` sits on cell
/// `(k / 2) % 24, (k / 2) / 24` of the 24x24 grid, so both anchors of a cell
/// are the same cell and cells follow row by row.
pub proof fn law_fine_anchors(k: int)
    requires
        0 <= k < 1152,
    ensures
        anchor_at(k) == (AnchorCell { col: ((k / 2) % 24) as u32, row: ((k / 2) / 24) as u32, grid: 24 }),
{
}

/// The coarse grid, in closed form: anchor `1152 + k` (`k < 864`) sits on
/// cell `(k / 6) % 12, (k / 6) / 12` of the 12x12 grid.
pub proof fn law_coarse_anchors(k: int)
    requires
        0 <= k < 864,
    ensures
        anchor_at(1152 + k) == (AnchorCell { col: ((k / 6) % 12) as u32, row: ((k / 6) / 12) as u32, grid: 12 }),
{
}

/// The anchors of one cell are all the same cell: two per fine cell, six per
/// coarse cell.
pub proof fn law_anchors_of_a_cell_agree(k: int, j: int)
    requires
        0 <= k < 2016,
        0 <= j < 2016,
        (k < 1152 && j < 1152 && k / 2 == j / 2) || (k >= 1152 && j >= 1152 && (k - 1152) / 6 == (j - 1152) / 6),
    ensures
        anchor_at(k) == anchor_at(j),
{
}

/// Consecutive cells run along a row, left to right, then on to the start of
/// the next row below: the first anchor of each fine cell after the first is
/// one column right of the previous cell, or at column 0 one row down.
pub proof fn law_fine_cells_row_major(m: int)
    requires
        1 <= m < 576,
    ensures
        anchor_at(2 * m).grid == anchor_at(2 * m - 2).grid,
        anchor_at(2 * m - 2).col < 23 ==> anchor_at(2 * m).col == anchor_at(2 * m - 2).col + 1
            && anchor_at(2 * m).row == anchor_at(2 * m - 2).row,
        anchor_at(2 * m - 2).col == 23 ==> anchor_at(2 * m).col == 0 && anchor_at(2 * m).row
            == anchor_at(2 * m - 2).row + 1,
{
}

/// Every anchor lies on its grid.
pub proof fn law_anchor_in_grid(k: int)
    requires
        0 <= k < ANCHOR_COUNT as int,
    ensures
        anchor_at(k).col < anchor_at(k).grid,
        anchor_at(k).row < anchor_at(k).grid,
        anchor_at(k).grid == FINE_GRID || anchor_at(k).grid == COARSE_GRID,
{
}

/// The anchors of the palm detector, in the order its output rows follow.
pub fn anchor_cells() -> (anchors: Vec<AnchorCell>)
    ensures
        anchors@.len() == ANCHOR_COUNT,
        forall|k: int| 0 <= k < ANCHOR_COUNT ==> #[trigger] anchors@[k] == anchor_at(k),
{
    let mut anchors: Vec<AnchorCell> = Vec::new();
    let mut y: u32 = 0;
    while y < FINE_GRID
        invariant
            0 <= y <= FINE_GRID,
            anchors@.len() == 48 * y,
            forall|k: int| 0 <= k < anchors@.len() ==> #[trigger] anchors@[k] == anchor_at(k),
        decreases FINE_GRID - y,
    {
        let mut x: u32 = 0;
        while x < FINE_GRID
            invariant
                0 <= y < FINE_GRID,
                0 <= x <= FINE_GRID,
                anchors@.len() == 48 * y + 2 * x,
                forall|k: int| 0 <= k < anchors@.len() ==> #[trigger] anchors@[k] == anchor_at(k),
            decreases FINE_GRID - x,
        {
            let cell = AnchorCell { col: x, row: y, grid: FINE_GRID };
            proof {
                let base = 48 * y + 2 * x;
                assert(base / 2 == 24 * y + x);
                assert((base + 1) / 2 == 24 * y + x);
                assert((24 * y + x) / 24 == y);
                assert((24 * y + x) % 24 == x);
                assert(anchor_at(base) == cell);
                assert(anchor_at(base + 1) == cell);
            }
            anchors.push(cell);
            anchors.push(cell);
            x += 1;
        }
        y += 1;
    }
    let mut y: u32 = 0;
    while y < COARSE_GRID
        invariant
            0 <= y <= COARSE_GRID,
            anchors@.len() == FINE_ANCHORS + 72 * y,
            forall|k: int| 0 <= k < anchors@.len() ==> #[trigger] anchors@[k] == anchor_at(k),
        decreases COARSE_GRID - y,
    {
        let mut x: u32 = 0;
        while x < COARSE_GRID
            invariant
                0 <= y < COARSE_GRID,
                0 <= x <= COARSE_GRID,
                anchors@.len() == FINE_ANCHORS + 72 * y + 6 * x,
                forall|k: int| 0 <= k < anchors@.len() ==> #[trigger] anchors@[k] == anchor_at(k),
            decreases COARSE_GRID - x,
        {
            let cell = AnchorCell { col: x, row: y, grid: COARSE_GRID };
            let mut r: u32 = 0;
            while r < COARSE_PER_CELL
                invariant
                    0 <= y < COARSE_GRID,
                    0 <= x < COARSE_GRID,
                    0 <= r <= COARSE_PER_CELL,
                    cell == (AnchorCell { col: x, row: y, grid: COARSE_GRID }),
                    anchors@.len() == FINE_ANCHORS + 72 * y + 6 * x + r,
                    forall|k: int| 0 <= k < anchors@.len() ==> #[trigger] anchors@[k] == anchor_at(k),
                decreases COARSE_PER_CELL - r,
            {
                proof {
                    let off = 72 * y + 6 * x + r;
                    assert(off / 6 == 12 * y + x);
                    assert((12 * y + x) / 12 == y);
                    assert((12 * y + x) % 12 == x);
                    assert(anchor_at(FINE_ANCHORS + off) == cell);
                }
                anchors.push(cell);
                r += 1;
            }
            x += 1;
        }
        y += 1;
    }
    anchors
}

} // verus!
