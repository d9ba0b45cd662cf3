//! A game session: one snake, one food, the viewport, and the frame step that
//! ties them together.
use vstd::prelude::*;
use crate::food::{has_free_cell, Food};
use crate::grid::{in_food_area, Viewport};
use crate::snake::{
    eat_spec, has_room, occupied_cells, tail_matches_length, update_spec, Direction, Snake,
    SnakeView, SNAKE_WAIT,
};

verus! {

/// A key the player pressed.
#[derive(Copy, Clone, Debug, PartialEq, Eq, Structural)]
pub enum Key {
    Right,
    Left,
    Down,
    Up,
    D,
    A,
    S,
    W,
    Q,
    /// Any key with no meaning in the game.
    Other,
}

/// Command a key gives to a snake heading `heading`: arrows and `WASD` turn,
/// `Q` pauses, any other key keeps the heading.
pub open spec fn key_command(heading: Direction, key: Key) -> Direction {
    match key {
        Key::Right | Key::D => Direction::Right,
        Key::Left | Key::A => Direction::Left,
        Key::Down | Key::S => Direction::Down,
        Key::Up | Key::W => Direction::Up,
        Key::Q => Direction::Still,
        Key::Other => heading,
    }
}

/// Snake after a frame of `dt` microseconds under `key`, before it eats.
pub open spec fn frame_snake(s: SnakeView, size: Viewport, dt: nat, key: Key) -> SnakeView {
    update_spec(s, size, dt, key_command(s.direction, key))
}

/// A game session.
#[derive(Debug)]
pub struct Game {
    pub snake: Snake,
    pub food: Food,
    pub window_size: Viewport,
}

impl Game {
    /// A session made of its three parts.
    pub fn new(snake: Snake, food: Food, size: Viewport) -> (r: Game)
        ensures
            r.snake@ == snake@,
            r.food.position == food.position,
            r.window_size == size,
    {
        Game { snake, food, window_size: size }
    }

    /// The command that `key` gives to the snake.
    pub fn key_direction(&self, key: Key) -> (r: Direction)
        ensures
            r == key_command(self.snake@.direction, key),
    {
        match key {
            Key::Right | Key::D => Direction::Right,
            Key::Left | Key::A => Direction::Left,
            Key::Down | Key::S => Direction::Down,
            Key::Up | Key::W => Direction::Up,
            Key::Q => Direction::Still,
            Key::Other => self.snake.direction,
        }
    }

    /// One frame of `dt` microseconds in a viewport of `size` with `key` held.
    /// The snake takes its frame step; if its head then stands on the food, it
    /// eats and the food is moved off the cells the snake covers, head
    /// included (see `Food::spawn`).
    pub fn update(&mut self, size: Viewport, dt: u64, key: Key)
        requires
            has_room(old(self).snake@.position),
            old(self).snake@.length < u32::MAX,
        ensures
            final(self).window_size == size,
            has_room(final(self).snake@.position),
            tail_matches_length(old(self).snake@) ==> tail_matches_length(final(self).snake@),
            ({
                let s = frame_snake(old(self).snake@, size, dt as nat, key);
                if s.position != old(self).food.position {
                    &&& final(self).snake@ == s
                    &&& final(self).food.position == old(self).food.position
                } else {
                    &&& final(self).snake@ == eat_spec(s)
                    &&& in_food_area(final(self).food.position, size)
                    &&& has_free_cell(size, occupied_cells(final(self).snake@))
                        ==> !occupied_cells(final(self).snake@).contains(final(self).food.position)
                }
            }),
    {
        let command = self.key_direction(key);
        self.snake.update(size, dt, command);
        self.window_size = size;
        if self.snake.position == self.food.position {
            self.snake.eat();
            proof {
                let cells = occupied_cells(self.snake@);
                assert(cells[cells.len() - 1] == self.food.position);
            }
            self.food.spawn(size, &self.snake);
        }
    }

    /// Whether the game is over: the snake is dead.
    pub fn over(&self) -> (r: bool)
        ensures
            r == !self.snake@.alive,
    {
        !self.snake.is_alive()
    }
}

/// A frame too short to bring the wait past `SNAKE_WAIT` leaves the snake's
/// head, body, heading, length and liveness as they were, whatever the key;
/// with the head still off the food, `Game::update` keeps the food too.
pub proof fn lemma_short_game_frame(s: SnakeView, size: Viewport, dt: nat, key: Key)
    requires
        s.wait + dt <= SNAKE_WAIT,
    ensures
        frame_snake(s, size, dt, key).position == s.position,
        frame_snake(s, size, dt, key).tail == s.tail,
        frame_snake(s, size, dt, key).direction == s.direction,
        frame_snake(s, size, dt, key).length == s.length,
        frame_snake(s, size, dt, key).alive == s.alive,
{
}

} // verus!
