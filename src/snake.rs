//! The snake: heading admission, pacing, wall and self collision, growth.
use std::collections::VecDeque;
use vstd::prelude::*;
use crate::grid::{in_bounds, Position, Viewport};

verus! {

/// Time, in microseconds, that must have built up before the snake moves
/// again: a move is attempted once the accumulated time exceeds it.
pub const SNAKE_WAIT: u64 = 200_000;

/// A heading, or a command to take one.
#[derive(Copy, Clone, Debug, PartialEq, Eq, Structural)]
pub enum Direction {
    Left,
    Right,
    Up,
    Down,
    Still,
}

/// The heading that reverses `d`; `Still` has none and maps to itself.
pub open spec fn opposite_of(d: Direction) -> Direction {
    match d {
        Direction::Left => Direction::Right,
        Direction::Right => Direction::Left,
        Direction::Up => Direction::Down,
        Direction::Down => Direction::Up,
        Direction::Still => Direction::Still,
    }
}

/// Heading after `cmd` is offered to a snake heading `heading`: a reversal of
/// an established heading is ignored, anything else is taken.
pub open spec fn turned(heading: Direction, cmd: Direction) -> Direction {
    if heading != Direction::Still && cmd == opposite_of(heading) {
        heading
    } else {
        cmd
    }
}

/// Column offset of one step in direction `d`.
pub open spec fn dx(d: Direction) -> int {
    match d {
        Direction::Left => -1,
        Direction::Right => 1,
        _ => 0,
    }
}

/// Row offset of one step in direction `d`.
pub open spec fn dy(d: Direction) -> int {
    match d {
        Direction::Up => -1,
        Direction::Down => 1,
        _ => 0,
    }
}

/// `p` translated by one step in direction `d`.
pub open spec fn neighbor(p: Position, d: Direction) -> Position {
    Position { x: (p.x + dx(d)) as i32, y: (p.y + dy(d)) as i32 }
}

/// The cell one step from `p` in direction `d` has coordinates that fit in `i32`.
pub open spec fn neighbor_fits(p: Position, d: Direction) -> bool {
    i32::MIN <= p.x + dx(d) <= i32::MAX && i32::MIN <= p.y + dy(d) <= i32::MAX
}

/// Every neighbour of `p` has coordinates that fit in `i32`.
pub open spec fn has_room(p: Position) -> bool {
    i32::MIN < p.x < i32::MAX && i32::MIN < p.y < i32::MAX
}

impl Direction {
    /// The heading that reverses this one (`Still` for `Still`).
    pub fn opposite(self) -> (r: Direction)
        ensures
            r == opposite_of(self),
    {
        match self {
            Direction::Left => Direction::Right,
            Direction::Right => Direction::Left,
            Direction::Up => Direction::Down,
            Direction::Down => Direction::Up,
            Direction::Still => Direction::Still,
        }
    }

    /// The heading taken when `cmd` is offered while heading `self`.
    pub fn turn(self, cmd: Direction) -> (r: Direction)
        ensures
            r == turned(self, cmd),
    {
        if self != Direction::Still && cmd == self.opposite() {
            self
        } else {
            cmd
        }
    }
}

/// Mathematical state of a snake.
pub struct SnakeView {
    pub position: Position,
    pub length: nat,
    pub direction: Direction,
    pub tail: Seq<Position>,
    pub alive: bool,
    pub wait: nat,
}

/// Body after the head leaves `prev` on a plain move: the oldest segment is
/// dropped and `prev` becomes the newest; an empty body stays empty.
pub open spec fn shifted(tail: Seq<Position>, prev: Position) -> Seq<Position> {
    if tail.len() == 0 {
        tail
    } else {
        seq![prev] + tail.drop_last()
    }
}

/// One movement attempt with command `cmd`.
pub open spec fn move_spec(s: SnakeView, size: Viewport, cmd: Direction) -> SnakeView {
    let s0 = SnakeView { wait: 0, ..s };
    if !s.alive {
        s0
    } else if !in_bounds(s.position, size) {
        SnakeView { alive: false, ..s0 }
    } else {
        let d = turned(s.direction, cmd);
        let next = neighbor(s.position, d);
        if d == Direction::Still {
            SnakeView { direction: d, ..s0 }
        } else if s.tail.contains(next) {
            SnakeView { direction: d, alive: false, ..s0 }
        } else {
            SnakeView { direction: d, position: next, tail: shifted(s.tail, s.position), ..s0 }
        }
    }
}

/// Accumulated wait after adding `dt`, capped at the largest `u64`.
pub open spec fn added_wait(wait: nat, dt: nat) -> nat {
    if wait + dt > u64::MAX { u64::MAX as nat } else { wait + dt }
}

/// One frame: `dt` is added to the wait, and a move is attempted once the wait
/// exceeds `SNAKE_WAIT`.
pub open spec fn update_spec(s: SnakeView, size: Viewport, dt: nat, cmd: Direction) -> SnakeView {
    let w = added_wait(s.wait, dt);
    if w > SNAKE_WAIT {
        move_spec(SnakeView { wait: w, ..s }, size, cmd)
    } else {
        SnakeView { wait: w, ..s }
    }
}

/// Growth: one segment joins the back of the body, one step behind the head
/// opposite to the heading, and the length grows by one. A still snake has no
/// heading to step against, so its new segment lies on the head's own cell,
/// which the head leaves on its next move.
pub open spec fn eat_spec(s: SnakeView) -> SnakeView {
    SnakeView {
        tail: s.tail.push(neighbor(s.position, opposite_of(s.direction))),
        length: s.length + 1,
        ..s
    }
}

/// The body holds exactly one segment fewer than the snake's length.
pub open spec fn tail_matches_length(s: SnakeView) -> bool {
    s.tail.len() + 1 == s.length
}

/// Cells the snake covers: its body segments, then its head.
pub open spec fn occupied_cells(s: SnakeView) -> Seq<Position> {
    s.tail.push(s.position)
}

/// The snake.
#[derive(Clone, Debug)]
pub struct Snake {
    /// The head cell.
    pub position: Position,
    /// Number of segments, head included.
    pub length: u32,
    /// Current heading.
    pub direction: Direction,
    /// Body segments: the front is the newest, the back the oldest.
    pub tail: VecDeque<Position>,
    pub(crate) is_alive: bool,
    pub(crate) wait: u64,
}

impl View for Snake {
    type V = SnakeView;

    open(crate) spec fn view(&self) -> SnakeView {
        SnakeView {
            position: self.position,
            length: self.length as nat,
            direction: self.direction,
            tail: self.tail@,
            alive: self.is_alive,
            wait: self.wait as nat,
        }
    }
}

impl Snake {
    /// A live, still snake of length one with its head at `(x, y)`.
    pub fn new(x: i32, y: i32) -> (r: Snake)
        ensures
            r@ == (SnakeView {
                position: Position { x, y },
                length: 1,
                direction: Direction::Still,
                tail: Seq::empty(),
                alive: true,
                wait: 0,
            }),
    {
        Snake {
            position: Position { x, y },
            length: 1,
            direction: Direction::Still,
            tail: VecDeque::new(),
            is_alive: true,
            wait: 0,
        }
    }
}


/// Cells drawn for a snake: the head, then every body segment but the front one.
pub open spec fn drawn_cells(s: SnakeView) -> Seq<Position> {
    if s.tail.len() == 0 {
        seq![s.position]
    } else {
        seq![s.position] + s.tail.drop_first()
    }
}

/// The cell one step from `p` in direction `d`.
pub fn neighbor_cell(p: Position, d: Direction) -> (r: Position)
    requires
        neighbor_fits(p, d),
    ensures
        r == neighbor(p, d),
{
    match d {
        Direction::Left => Position { x: p.x - 1, y: p.y },
        Direction::Right => Position { x: p.x + 1, y: p.y },
        Direction::Up => Position { x: p.x, y: p.y - 1 },
        Direction::Down => Position { x: p.x, y: p.y + 1 },
        Direction::Still => p,
    }
}

impl Snake {
    /// Whether the head lies within the grid of `size`.
    fn is_valid(&self, size: Viewport) -> (r: bool)
        ensures
            r == in_bounds(self.position, size),
    {
        size.contains(self.position)
    }

    /// Whether `(x, y)` is one of the body segments.
    fn overlap_tail(&self, x: i32, y: i32) -> (r: bool)
        ensures
            r == self.tail@.contains(Position { x, y }),
    {
        let target = Position { x, y };
        let n = self.tail.len();
        let mut i: usize = 0;
        while i < n
            invariant
                n == self.tail@.len(),
                target == (Position { x, y }),
                i <= n,
                forall|j: int| 0 <= j < i ==> self.tail@[j] != target,
            decreases n - i,
        {
            if self.tail[i] == target {
                assert(self.tail@[i as int] == target);
                return true;
            }
            i = i + 1;
        }
        false
    }

    /// One movement attempt. A dead snake stays where it is. A head outside
    /// the grid dies without moving. Otherwise `direction` is offered as the
    /// new heading; a snake that is not still then dies if the next cell is
    /// a body segment, and else steps into it, its body following.
    pub fn mv(&mut self, size: Viewport, direction: Direction)
        ensures
            final(self)@ == move_spec(old(self)@, size, direction),
    {
        self.wait = 0;
        if !self.is_alive {
            return;
        }
        if !self.is_valid(size) {
            self.is_alive = false;
            return;
        }
        self.direction = self.direction.turn(direction);
        if self.direction == Direction::Still {
            return;
        }
        let next = neighbor_cell(self.position, self.direction);
        if self.overlap_tail(next.x, next.y) {
            self.is_alive = false;
            return;
        }
        let prev = self.position;
        self.position = next;
        if self.tail.len() > 0 {
            self.tail.pop_back();
            self.tail.push_front(prev);
        }
        proof {
            assert(self.tail@ =~= shifted(old(self).tail@, prev));
        }
    }

    /// Growth after eating: a segment one step behind the head, opposite to
    /// the heading (on the head's cell while still), joins the back of the
    /// body, and the length grows by one.
    pub fn eat(&mut self)
        requires
            old(self)@.length < u32::MAX,
            neighbor_fits(old(self)@.position, opposite_of(old(self)@.direction)),
        ensures
            final(self)@ == eat_spec(old(self)@),
    {
        let behind = neighbor_cell(self.position, self.direction.opposite());
        self.tail.push_back(behind);
        self.length = self.length + 1;
    }

    /// Whether `p` is covered by the snake: its head or a body segment.
    pub fn occupies(&self, p: Position) -> (r: bool)
        ensures
            r == occupied_cells(self@).contains(p),
    {
        let r = p == self.position || self.overlap_tail(p.x, p.y);
        proof {
            let cells = occupied_cells(self@);
            if p == self.position {
                assert(cells[cells.len() - 1] == p);
            }
            if self.tail@.contains(p) {
                let i = choose|i: int| 0 <= i < self.tail@.len() && self.tail@[i] == p;
                assert(cells[i] == p);
            }
            if cells.contains(p) {
                let i = choose|i: int| 0 <= i < cells.len() && cells[i] == p;
                if i < self.tail@.len() {
                    assert(self.tail@[i] == p);
                }
            }
        }
        r
    }

    /// Whether the snake is alive.
    pub fn is_alive(&self) -> (r: bool)
        ensures
            r == self@.alive,
    {
        self.is_alive
    }

    /// One frame of `dt` microseconds: the wait grows by `dt`, and once it
    /// exceeds `SNAKE_WAIT` a move is attempted with `direction`, which sets
    /// the wait back to zero.
    pub fn update(&mut self, size: Viewport, dt: u64, direction: Direction)
        ensures
            final(self)@ == update_spec(old(self)@, size, dt as nat, direction),
            has_room(old(self)@.position) ==> has_room(final(self)@.position),
    {
        self.wait = self.wait.saturating_add(dt);
        if self.wait > SNAKE_WAIT {
            self.mv(size, direction);
        }
    }

    /// Cells to draw: the head, then the body without its front segment.
    pub fn draw_cells(&self) -> (r: Vec<Position>)
        ensures
            r@ == drawn_cells(self@),
    {
        let mut r: Vec<Position> = Vec::new();
        r.push(self.position);
        let n = self.tail.len();
        let mut i: usize = 1;
        while i < n
            invariant
                n == self.tail@.len(),
                1 <= i,
                i <= n || n == 0,
                n > 0 ==> r@ == seq![self.position] + self.tail@.subrange(1, i as int),
                n == 0 ==> r@ == seq![self.position],
            decreases n - i,
        {
            r.push(self.tail[i]);
            i = i + 1;
            proof {
                assert(r@ =~= seq![self.position] + self.tail@.subrange(1, i as int));
            }
        }
        proof {
            if n > 0 {
                assert(self.tail@.subrange(1, n as int) =~= self.tail@.drop_first());
            }
        }
        r
    }
}

} // verus!
