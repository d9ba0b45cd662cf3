//! Properties of the snake's state machine over many frames.
use vstd::prelude::*;
use crate::grid::{in_bounds, Viewport};
use crate::snake::{
    eat_spec, move_spec, neighbor, opposite_of, tail_matches_length, turned, update_spec,
    Direction, SnakeView, SNAKE_WAIT,
};

verus! {

/// State after each frame `(dt, command)` of `frames` is applied in turn.
pub open spec fn run_frames(s: SnakeView, size: Viewport, frames: Seq<(nat, Direction)>) -> SnakeView
    decreases frames.len(),
{
    if frames.len() == 0 {
        s
    } else {
        run_frames(update_spec(s, size, frames[0].0, frames[0].1), size, frames.drop_first())
    }
}

/// Total elapsed time of `frames`.
pub open spec fn total_time(frames: Seq<(nat, Direction)>) -> nat
    decreases frames.len(),
{
    if frames.len() == 0 {
        0
    } else {
        frames[0].0 + total_time(frames.drop_first())
    }
}

/// State after each frame `(dt, command, eats)` of `frames` in turn: the
/// frame step, then growth when `eats` holds.
pub open spec fn run_feeding(s: SnakeView, size: Viewport, frames: Seq<(nat, Direction, bool)>) -> SnakeView
    decreases frames.len(),
{
    if frames.len() == 0 {
        s
    } else {
        let t = update_spec(s, size, frames[0].0, frames[0].1);
        let u = if frames[0].2 { eat_spec(t) } else { t };
        run_feeding(u, size, frames.drop_first())
    }
}

/// Eating adds one segment and one to the length, so the body keeps holding
/// one segment fewer than the length.
pub proof fn lemma_eat_keeps_tail_length(s: SnakeView)
    requires
        tail_matches_length(s),
    ensures
        tail_matches_length(eat_spec(s)),
{
}

/// Whatever the frames, commands and meals in between, a snake whose body
/// holds one segment fewer than its length still does so afterwards.
pub proof fn lemma_tail_tracks_length_feeding(
    s: SnakeView,
    size: Viewport,
    frames: Seq<(nat, Direction, bool)>,
)
    requires
        tail_matches_length(s),
    ensures
        tail_matches_length(run_feeding(s, size, frames)),
    decreases frames.len(),
{
    if frames.len() > 0 {
        let t = update_spec(s, size, frames[0].0, frames[0].1);
        let u = if frames[0].2 { eat_spec(t) } else { t };
        lemma_tail_tracks_length_feeding(u, size, frames.drop_first());
    }
}

/// A command that reverses a heading other than `Still` never changes the
/// heading, whether or not the frame moves the snake.
pub proof fn lemma_reversal_ignored(s: SnakeView, size: Viewport, dt: nat, cmd: Direction)
    requires
        s.direction != Direction::Still,
        cmd == opposite_of(s.direction),
    ensures
        update_spec(s, size, dt, cmd).direction == s.direction,
{
}

/// From heading `Still`, the next movement attempt of a live snake inside the
/// grid takes any command as its heading.
pub proof fn lemma_still_takes_any(s: SnakeView, size: Viewport, cmd: Direction)
    requires
        s.direction == Direction::Still,
        s.alive,
        in_bounds(s.position, size),
    ensures
        move_spec(s, size, cmd).direction == cmd,
{
}

/// A frame that brings the wait past `SNAKE_WAIT` is that next movement
/// attempt: a still, live snake inside the grid takes the command as its
/// heading, and steps one cell that way unless the cell is in its body.
pub proof fn lemma_still_frame_takes_any(s: SnakeView, size: Viewport, dt: nat, cmd: Direction)
    requires
        s.direction == Direction::Still,
        s.alive,
        in_bounds(s.position, size),
        s.wait + dt > SNAKE_WAIT,
    ensures
        update_spec(s, size, dt, cmd).direction == cmd,
        cmd != Direction::Still && !s.tail.contains(neighbor(s.position, cmd))
            ==> update_spec(s, size, dt, cmd).position == neighbor(s.position, cmd),
{
}

/// A move into a body segment kills the snake and leaves its head and body
/// where they were.
pub proof fn lemma_self_collision(s: SnakeView, size: Viewport, cmd: Direction)
    requires
        s.alive,
        in_bounds(s.position, size),
        turned(s.direction, cmd) != Direction::Still,
        s.tail.contains(neighbor(s.position, turned(s.direction, cmd))),
    ensures
        !move_spec(s, size, cmd).alive,
        move_spec(s, size, cmd).position == s.position,
        move_spec(s, size, cmd).tail == s.tail,
{
}

/// A head outside the grid at a movement attempt kills the snake and leaves
/// its head and body where they were.
pub proof fn lemma_out_of_bounds(s: SnakeView, size: Viewport, cmd: Direction)
    requires
        !in_bounds(s.position, size),
    ensures
        !move_spec(s, size, cmd).alive,
        move_spec(s, size, cmd).position == s.position,
        move_spec(s, size, cmd).tail == s.tail,
{
}

/// Frames whose time, added to the wait already built up, stays within
/// `SNAKE_WAIT` never move the snake, change its heading, body, length or
/// liveness.
pub proof fn lemma_short_frames_idle(s: SnakeView, size: Viewport, frames: Seq<(nat, Direction)>)
    requires
        s.wait + total_time(frames) <= SNAKE_WAIT,
    ensures
        run_frames(s, size, frames).position == s.position,
        run_frames(s, size, frames).tail == s.tail,
        run_frames(s, size, frames).alive == s.alive,
        run_frames(s, size, frames).direction == s.direction,
        run_frames(s, size, frames).length == s.length,
        run_frames(s, size, frames).wait == s.wait + total_time(frames),
    decreases frames.len(),
{
    if frames.len() > 0 {
        let next = update_spec(s, size, frames[0].0, frames[0].1);
        assert(next.wait == s.wait + frames[0].0);
        lemma_short_frames_idle(next, size, frames.drop_first());
    }
}

} // verus!
