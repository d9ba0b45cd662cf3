//! Food: one cell, placed at random on a cell of the food area that no body
//! segment covers.
use rand::Rng;
use vstd::prelude::*;
use vstd::arithmetic::div_mod::{lemma_div_pos_is_pos, lemma_fundamental_div_mod, lemma_mod_pos_bound};
use crate::grid::{lemma_bounds_small, food_area_cells, food_max_col, food_max_row, in_food_area, Position, Viewport};
use crate::snake::{occupied_cells, Snake};

verus! {

/// Random draws tried by `Food::spawn` before it searches the food area cell
/// by cell.
pub const MAX_DRAWS: u32 = 1000;

/// Relies on rand's `thread_rng` and `Rng::gen_range`: over the inclusive
/// range `0..=max`, which is not empty when `max >= 0`, `gen_range` returns
/// a value of that range.
#[verifier::external_body]
fn random_coord(max: i32) -> (r: i32)
    requires
        0 <= max,
    ensures
        0 <= r <= max,
{
    rand::thread_rng().gen_range(0..=max)
}

/// A random cell of the food area of `size`.
fn random_cell(size: Viewport) -> (r: Position)
    ensures
        in_food_area(r, size),
{
    let (cols, rows) = size.food_bounds();
    Position { x: random_coord(cols), y: random_coord(rows) }
}

/// `q` comes before `p` when the food area is read column by column, each
/// column from its top row down.
pub open spec fn scanned_before(q: Position, p: Position) -> bool {
    q.x < p.x || (q.x == p.x && q.y < p.y)
}

/// The first cell of the food area of `size`, read column by column, that
/// the snake does not cover; `None` when it covers every cell.
pub fn first_free_cell(size: Viewport, snake: &Snake) -> (r: Option<Position>)
    ensures
        r matches Some(p) ==> in_food_area(p, size) && !occupied_cells(snake@).contains(p),
        r matches Some(p) ==> forall|q: Position| #[trigger] in_food_area(q, size)
            && scanned_before(q, p) ==> occupied_cells(snake@).contains(q),
        r is None ==> forall|p: Position| #[trigger] in_food_area(p, size)
            ==> occupied_cells(snake@).contains(p),
{
    let (cols, rows) = size.food_bounds();
    let mut x: i32 = 0;
    while x <= cols
        invariant
            cols == food_max_col(size),
            rows == food_max_row(size),
            0 <= cols < i32::MAX,
            0 <= rows < i32::MAX,
            0 <= x <= cols + 1,
            forall|p: Position| #[trigger] in_food_area(p, size) && p.x < x
                ==> occupied_cells(snake@).contains(p),
        decreases cols + 1 - x,
    {
        let mut y: i32 = 0;
        while y <= rows
            invariant
                cols == food_max_col(size),
                rows == food_max_row(size),
                0 <= cols < i32::MAX,
                0 <= rows < i32::MAX,
                0 <= x <= cols,
                0 <= y <= rows + 1,
                forall|p: Position| #[trigger] in_food_area(p, size) && scanned_before(p, Position { x, y })
                    ==> occupied_cells(snake@).contains(p),
            decreases rows + 1 - y,
        {
            if !snake.occupies(Position { x, y }) {
                return Some(Position { x, y });
            }
            y = y + 1;
        }
        x = x + 1;
    }
    None
}

/// Whether some cell of the food area of `size` is not in `cells`.
pub open spec fn has_free_cell(size: Viewport, cells: Seq<Position>) -> bool {
    exists|p: Position| #[trigger] in_food_area(p, size) && !cells.contains(p)
}

/// Food.
#[derive(Debug)]
pub struct Food {
    /// The food cell.
    pub position: Position,
}

impl Food {
    /// Food on a random cell of the food area of `size`.
    pub fn new(size: Viewport) -> (r: Food)
        ensures
            in_food_area(r.position, size),
    {
        Food { position: random_cell(size) }
    }

    /// Moves the food off the snake. Food on no cell the snake covers (head
    /// or body) stays where it is. Otherwise random cells of the food area
    /// are drawn until one is free, at most `MAX_DRAWS` times, and then the
    /// first free cell is taken; the food always ends in the food area, and
    /// on a free cell whenever the food area has one.
    pub fn spawn(&mut self, size: Viewport, snake: &Snake)
        ensures
            !occupied_cells(snake@).contains(old(self).position)
                ==> final(self).position == old(self).position,
            occupied_cells(snake@).contains(old(self).position)
                ==> in_food_area(final(self).position, size),
            has_free_cell(size, occupied_cells(snake@))
                ==> !occupied_cells(snake@).contains(final(self).position),
    {
        let mut draws: u32 = 0;
        while draws < MAX_DRAWS
            invariant
                draws <= MAX_DRAWS,
                draws == 0 ==> self.position == old(self).position,
                draws > 0 ==> in_food_area(self.position, size),
                draws > 0 ==> occupied_cells(snake@).contains(old(self).position),
            decreases MAX_DRAWS - draws,
        {
            if !snake.occupies(self.position) {
                return;
            }
            self.position = random_cell(size);
            draws = draws + 1;
        }
        if snake.occupies(self.position) {
            if let Some(p) = first_free_cell(size, snake) {
                self.position = p;
            }
        }
    }
}

/// Column and row of the `i`-th cell of a grid `w` cells wide and `h` high.
proof fn lemma_cell_coords(i: int, w: int, h: int)
    requires
        0 <= i < w * h,
        0 < w,
        0 < h,
    ensures
        0 <= i % w < w,
        0 <= i / w < h,
        i == w * (i / w) + i % w,
{
    lemma_fundamental_div_mod(i, w);
    lemma_mod_pos_bound(i, w);
    lemma_div_pos_is_pos(i, w);
    let q = i / w;
    let r = i % w;
    assert(q < h) by (nonlinear_arith)
        requires
            i == w * q + r,
            0 <= r,
            i < w * h,
            0 < w,
    ;
}

/// When the food area holds more cells than `tail` lists, one of its cells is
/// not listed. With the cells a snake covers, this is when `Food::spawn` leaves
/// the food off the snake.
pub proof fn lemma_free_cell_exists(size: Viewport, tail: Seq<Position>)
    requires
        tail.len() < food_area_cells(size),
    ensures
        has_free_cell(size, tail),
{
    let w = food_max_col(size) + 1;
    let h = food_max_row(size) + 1;
    let n = w * h;
    lemma_bounds_small(size);
    let cells = Seq::new(n as nat, |i: int| Position { x: (i % w) as i32, y: (i / w) as i32 });
    assert forall|i: int| 0 <= i < n implies #[trigger] in_food_area(cells[i], size)
        && cells[i].x == i % w && cells[i].y == i / w by {
        lemma_cell_coords(i, w, h);
    }
    assert forall|i: int, j: int| 0 <= i < n && 0 <= j < n && i != j implies cells[i] != cells[j] by {
        lemma_cell_coords(i, w, h);
        lemma_cell_coords(j, w, h);
    }
    assert(cells.no_duplicates());
    cells.unique_seq_to_set();
    tail.lemma_cardinality_of_set();
    if !has_free_cell(size, tail) {
        assert forall|p: Position| cells.to_set().contains(p) implies tail.to_set().contains(p) by {
            let i = choose|i: int| 0 <= i < cells.len() && cells[i] == p;
            assert(in_food_area(cells[i], size));
        }
        vstd::set_lib::lemma_len_subset(cells.to_set(), tail.to_set());
        assert(false);
    }
}

} // verus!
