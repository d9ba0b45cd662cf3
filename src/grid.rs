//! Grid cells, the viewport they are measured against, and the two regions
//! derived from it: the region the snake may occupy and the region food is
//! placed in.
use vstd::prelude::*;

verus! {

/// Side of one grid cell, in pixels.
pub const BLOCK_SIZE: u32 = 25;

/// A grid cell.
#[derive(Copy, Clone, Debug, PartialEq, Eq, Structural)]
pub struct Position {
    pub x: i32,
    pub y: i32,
}

/// Size of the drawing surface, in whole pixels.
#[derive(Copy, Clone, Debug, PartialEq, Eq, Structural)]
pub struct Viewport {
    pub width: u32,
    pub height: u32,
}

/// Largest column the head may stand on: `floor(width / BLOCK_SIZE)`.
pub open spec fn max_col(size: Viewport) -> int {
    size.width as int / BLOCK_SIZE as int
}

/// Largest row the head may stand on: `floor(height / BLOCK_SIZE)`.
pub open spec fn max_row(size: Viewport) -> int {
    size.height as int / BLOCK_SIZE as int
}

/// Largest column food is placed on: `floor(width / (2 * BLOCK_SIZE))`.
pub open spec fn food_max_col(size: Viewport) -> int {
    size.width as int / (2 * BLOCK_SIZE) as int
}

/// Largest row food is placed on: `floor(height / (2 * BLOCK_SIZE))`.
pub open spec fn food_max_row(size: Viewport) -> int {
    size.height as int / (2 * BLOCK_SIZE) as int
}

/// The head may stand on `p`: both coordinates lie in `[0, max]`, bounds included.
pub open spec fn in_bounds(p: Position, size: Viewport) -> bool {
    0 <= p.x <= max_col(size) && 0 <= p.y <= max_row(size)
}

/// Food may be placed on `p`.
pub open spec fn in_food_area(p: Position, size: Viewport) -> bool {
    0 <= p.x <= food_max_col(size) && 0 <= p.y <= food_max_row(size)
}

/// Number of cells food may be placed on.
pub open spec fn food_area_cells(size: Viewport) -> int {
    (food_max_col(size) + 1) * (food_max_row(size) + 1)
}

/// Both grids are small: every bound lies in `[0, u32::MAX / 25]`.
pub proof fn lemma_bounds_small(size: Viewport)
    ensures
        0 <= food_max_col(size) <= max_col(size) <= u32::MAX / 25,
        0 <= food_max_row(size) <= max_row(size) <= u32::MAX / 25,
{
    let w = size.width as int;
    let h = size.height as int;
    assert(0 <= w / 50 <= w / 25 <= u32::MAX / 25) by (nonlinear_arith)
        requires
            0 <= w <= u32::MAX,
    ;
    assert(0 <= h / 50 <= h / 25 <= u32::MAX / 25) by (nonlinear_arith)
        requires
            0 <= h <= u32::MAX,
    ;
}

impl Viewport {
    /// Bound on both coordinates of the head, as `(columns, rows)`.
    pub fn grid_bounds(&self) -> (r: (i32, i32))
        ensures
            r.0 == max_col(*self),
            r.1 == max_row(*self),
    {
        ((self.width / BLOCK_SIZE) as i32, (self.height / BLOCK_SIZE) as i32)
    }

    /// Bound on both coordinates of a food cell, as `(columns, rows)`.
    pub fn food_bounds(&self) -> (r: (i32, i32))
        ensures
            r.0 == food_max_col(*self),
            r.1 == food_max_row(*self),
            0 <= r.0 < i32::MAX,
            0 <= r.1 < i32::MAX,
    {
        proof {
            lemma_bounds_small(*self);
        }
        ((self.width / (2 * BLOCK_SIZE)) as i32, (self.height / (2 * BLOCK_SIZE)) as i32)
    }

    /// Whether the head may stand on `p`.
    pub fn contains(&self, p: Position) -> (r: bool)
        ensures
            r == in_bounds(p, *self),
    {
        let (cols, rows) = self.grid_bounds();
        0 <= p.x && 0 <= p.y && p.x <= cols && p.y <= rows
    }
}

} // verus!
