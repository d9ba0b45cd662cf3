use snake_game::food::{first_free_cell, Food};
use snake_game::game::{Game, Key};
use snake_game::grid::{Position, Viewport, BLOCK_SIZE};
use snake_game::snake::{neighbor_cell, Direction, Snake, SNAKE_WAIT};

fn pos(x: i32, y: i32) -> Position {
    Position { x, y }
}

fn view400() -> Viewport {
    Viewport { width: 400, height: 400 }
}

fn tail_of(s: &Snake) -> Vec<Position> {
    s.tail.iter().copied().collect()
}

#[test]
fn new_snake_is_still_and_alive() {
    let s = Snake::new(3, 4);
    assert_eq!(s.position, pos(3, 4));
    assert_eq!(s.length, 1);
    assert_eq!(s.direction, Direction::Still);
    assert!(s.tail.is_empty());
    assert!(s.is_alive());
}

#[test]
fn eat_then_move_shifts_body() {
    let mut s = Snake::new(5, 5);
    s.direction = Direction::Right;
    s.eat();
    assert_eq!(tail_of(&s), vec![pos(4, 5)]);
    assert_eq!(s.length, 2);
    s.mv(view400(), Direction::Right);
    assert_eq!(s.position, pos(6, 5));
    assert_eq!(tail_of(&s), vec![pos(5, 5)]);
    assert!(s.is_alive());
}

#[test]
fn eat_places_segment_opposite_to_heading() {
    let cases = [
        (Direction::Left, pos(6, 5)),
        (Direction::Right, pos(4, 5)),
        (Direction::Up, pos(5, 6)),
        (Direction::Down, pos(5, 4)),
    ];
    for (d, behind) in cases {
        let mut s = Snake::new(5, 5);
        s.direction = d;
        s.eat();
        assert_eq!(tail_of(&s), vec![behind]);
        assert_eq!(s.length, 2);
    }
}

#[test]
fn eat_while_still_adds_segment_on_head_cell() {
    let mut s = Snake::new(5, 5);
    s.eat();
    assert_eq!(tail_of(&s), vec![pos(5, 5)]);
    assert_eq!(s.length, 2);
    s.mv(view400(), Direction::Up);
    assert!(s.is_alive());
    assert_eq!(s.position, pos(5, 4));
    assert_eq!(tail_of(&s), vec![pos(5, 5)]);
}

#[test]
fn occupies_counts_head_and_body() {
    let mut s = Snake::new(5, 5);
    s.tail.push_back(pos(4, 5));
    assert!(s.occupies(pos(5, 5)));
    assert!(s.occupies(pos(4, 5)));
    assert!(!s.occupies(pos(6, 5)));
}

#[test]
fn reversal_is_ignored() {
    let pairs = [
        (Direction::Right, Direction::Left, pos(6, 5)),
        (Direction::Left, Direction::Right, pos(4, 5)),
        (Direction::Up, Direction::Down, pos(5, 4)),
        (Direction::Down, Direction::Up, pos(5, 6)),
    ];
    for (heading, cmd, next) in pairs {
        let mut s = Snake::new(5, 5);
        s.direction = heading;
        s.mv(view400(), cmd);
        assert_eq!(s.direction, heading);
        assert_eq!(s.position, next);
    }
}

#[test]
fn still_accepts_any_command() {
    let cmds = [
        (Direction::Left, pos(4, 5)),
        (Direction::Right, pos(6, 5)),
        (Direction::Up, pos(5, 4)),
        (Direction::Down, pos(5, 6)),
        (Direction::Still, pos(5, 5)),
    ];
    for (cmd, next) in cmds {
        let mut s = Snake::new(5, 5);
        s.mv(view400(), cmd);
        assert_eq!(s.direction, cmd);
        assert_eq!(s.position, next);
    }
}

#[test]
fn turn_table() {
    assert_eq!(Direction::Right.turn(Direction::Left), Direction::Right);
    assert_eq!(Direction::Right.turn(Direction::Up), Direction::Up);
    assert_eq!(Direction::Right.turn(Direction::Still), Direction::Still);
    assert_eq!(Direction::Still.turn(Direction::Down), Direction::Down);
    assert_eq!(Direction::Up.opposite(), Direction::Down);
    assert_eq!(Direction::Still.opposite(), Direction::Still);
}

#[test]
fn self_collision_kills_without_moving() {
    let mut s = Snake::new(5, 5);
    s.direction = Direction::Right;
    s.tail.push_back(pos(6, 5));
    s.tail.push_back(pos(7, 5));
    s.length = 3;
    s.mv(view400(), Direction::Right);
    assert!(!s.is_alive());
    assert_eq!(s.position, pos(5, 5));
    assert_eq!(tail_of(&s), vec![pos(6, 5), pos(7, 5)]);
}

#[test]
fn out_of_bounds_kills_without_moving() {
    let starts = [pos(17, 3), pos(-1, 3), pos(3, 17), pos(3, -1)];
    for p in starts {
        let mut s = Snake::new(p.x, p.y);
        s.mv(view400(), Direction::Left);
        assert!(!s.is_alive());
        assert_eq!(s.position, p);
        assert_eq!(s.direction, Direction::Still);
    }
}

#[test]
fn bound_is_inclusive_and_checked_before_move() {
    let mut s = Snake::new(16, 16);
    s.mv(view400(), Direction::Right);
    assert!(s.is_alive());
    assert_eq!(s.position, pos(17, 16));
    s.mv(view400(), Direction::Right);
    assert!(!s.is_alive());
    assert_eq!(s.position, pos(17, 16));
}

#[test]
fn dead_snake_stays_put() {
    let mut s = Snake::new(20, 0);
    s.mv(view400(), Direction::Down);
    assert!(!s.is_alive());
    s.mv(view400(), Direction::Down);
    assert!(!s.is_alive());
    assert_eq!(s.position, pos(20, 0));
}

#[test]
fn short_frames_never_move() {
    let mut s = Snake::new(5, 5);
    s.update(view400(), 100_000, Direction::Right);
    s.update(view400(), 100_000, Direction::Right);
    assert_eq!(s.position, pos(5, 5));
    assert_eq!(s.direction, Direction::Still);
    assert!(s.is_alive());
    s.update(view400(), 1, Direction::Right);
    assert_eq!(s.position, pos(6, 5));
    assert_eq!(s.direction, Direction::Right);
}

#[test]
fn wait_restarts_after_each_move() {
    let mut s = Snake::new(5, 5);
    s.update(view400(), SNAKE_WAIT + 1, Direction::Down);
    assert_eq!(s.position, pos(5, 6));
    s.update(view400(), SNAKE_WAIT, Direction::Down);
    assert_eq!(s.position, pos(5, 6));
    s.update(view400(), 1, Direction::Down);
    assert_eq!(s.position, pos(5, 7));
}

#[test]
fn huge_frames_saturate() {
    let mut s = Snake::new(5, 5);
    s.update(view400(), u64::MAX, Direction::Up);
    assert_eq!(s.position, pos(5, 4));
}

#[test]
fn body_tracks_length_over_many_frames() {
    let mut s = Snake::new(2, 2);
    let cmds = [
        Direction::Right,
        Direction::Right,
        Direction::Down,
        Direction::Left,
        Direction::Down,
        Direction::Right,
    ];
    for (i, c) in cmds.iter().enumerate() {
        s.update(view400(), SNAKE_WAIT + 1, *c);
        if i % 2 == 0 {
            s.eat();
        }
        assert_eq!(s.tail.len() + 1, s.length as usize);
    }
    assert!(s.is_alive());
}

#[test]
fn drawn_cells_skip_front_segment() {
    let mut s = Snake::new(5, 5);
    assert_eq!(s.draw_cells(), vec![pos(5, 5)]);
    s.tail.push_back(pos(4, 5));
    s.tail.push_back(pos(3, 5));
    s.tail.push_back(pos(2, 5));
    assert_eq!(s.draw_cells(), vec![pos(5, 5), pos(3, 5), pos(2, 5)]);
}

#[test]
fn neighbor_cells() {
    assert_eq!(neighbor_cell(pos(1, 1), Direction::Left), pos(0, 1));
    assert_eq!(neighbor_cell(pos(1, 1), Direction::Down), pos(1, 2));
    assert_eq!(neighbor_cell(pos(1, 1), Direction::Still), pos(1, 1));
}

#[test]
fn viewport_bounds() {
    assert_eq!(BLOCK_SIZE, 25);
    assert_eq!(view400().grid_bounds(), (16, 16));
    assert_eq!(view400().food_bounds(), (8, 8));
    let v = Viewport { width: 649, height: 99 };
    assert_eq!(v.grid_bounds(), (25, 3));
    assert_eq!(v.food_bounds(), (12, 1));
    assert!(v.contains(pos(25, 3)));
    assert!(!v.contains(pos(26, 3)));
    assert!(!v.contains(pos(0, -1)));
}

fn snake_covering_all_but(free: Position) -> Snake {
    let mut s = Snake::new(0, 0);
    for x in 0..=8 {
        for y in 0..=8 {
            if pos(x, y) != free {
                s.tail.push_back(pos(x, y));
            }
        }
    }
    s.length = s.tail.len() as u32 + 1;
    s
}

#[test]
fn spawn_finds_the_only_free_cell() {
    let s = snake_covering_all_but(pos(3, 7));
    let mut f = Food { position: pos(0, 0) };
    f.spawn(view400(), &s);
    assert_eq!(f.position, pos(3, 7));
}

#[test]
fn spawn_keeps_food_on_a_free_cell() {
    let mut s = Snake::new(0, 0);
    s.tail.push_back(pos(1, 1));
    let mut f = Food { position: pos(20, 20) };
    f.spawn(view400(), &s);
    assert_eq!(f.position, pos(20, 20));
}

#[test]
fn spawn_never_lands_on_the_body() {
    let mut s = Snake::new(0, 0);
    for x in 0..=8 {
        for y in 0..=5 {
            s.tail.push_back(pos(x, y));
        }
    }
    for _ in 0..50 {
        let mut f = Food { position: pos(2, 2) };
        f.spawn(view400(), &s);
        assert!(!s.tail.contains(&f.position));
        assert!(f.position.x >= 0 && f.position.x <= 8);
        assert!(f.position.y >= 6 && f.position.y <= 8);
    }
}

#[test]
fn spawn_on_a_full_area_stays_in_area() {
    let mut s = snake_covering_all_but(pos(100, 100));
    s.tail.push_back(pos(100, 100));
    let mut f = Food { position: pos(4, 4) };
    f.spawn(view400(), &s);
    assert!(f.position.x >= 0 && f.position.x <= 8);
    assert!(f.position.y >= 0 && f.position.y <= 8);
}

#[test]
fn first_free_cell_scans_columns() {
    let s = snake_covering_all_but(pos(5, 2));
    assert_eq!(first_free_cell(view400(), &s), Some(pos(5, 2)));
    let mut full = snake_covering_all_but(pos(100, 100));
    full.tail.push_back(pos(100, 100));
    assert_eq!(first_free_cell(view400(), &full), None);
    assert_eq!(first_free_cell(view400(), &Snake::new(0, 0)), Some(pos(0, 1)));
    assert_eq!(first_free_cell(view400(), &Snake::new(3, 3)), Some(pos(0, 0)));
}

#[test]
fn new_food_is_random_within_food_area() {
    let mut seen: Vec<Position> = Vec::new();
    for _ in 0..200 {
        let f = Food::new(view400());
        assert!(f.position.x >= 0 && f.position.x <= 8);
        assert!(f.position.y >= 0 && f.position.y <= 8);
        if !seen.contains(&f.position) {
            seen.push(f.position);
        }
    }
    assert!(seen.len() > 1);
    let tiny = Food::new(Viewport { width: 10, height: 10 });
    assert_eq!(tiny.position, pos(0, 0));
}

#[test]
fn keys_map_to_commands() {
    let mut s = Snake::new(5, 5);
    s.direction = Direction::Up;
    let g = Game::new(s, Food { position: pos(0, 0) }, view400());
    assert_eq!(g.key_direction(Key::D), Direction::Right);
    assert_eq!(g.key_direction(Key::Right), Direction::Right);
    assert_eq!(g.key_direction(Key::A), Direction::Left);
    assert_eq!(g.key_direction(Key::Left), Direction::Left);
    assert_eq!(g.key_direction(Key::S), Direction::Down);
    assert_eq!(g.key_direction(Key::Down), Direction::Down);
    assert_eq!(g.key_direction(Key::W), Direction::Up);
    assert_eq!(g.key_direction(Key::Up), Direction::Up);
    assert_eq!(g.key_direction(Key::Q), Direction::Still);
    assert_eq!(g.key_direction(Key::Other), Direction::Up);
}

#[test]
fn game_eats_food_under_the_head() {
    let mut s = Snake::new(5, 5);
    s.direction = Direction::Right;
    let mut g = Game::new(s, Food { position: pos(6, 5) }, view400());
    g.update(view400(), SNAKE_WAIT + 1, Key::Other);
    assert_eq!(g.snake.position, pos(6, 5));
    assert_eq!(g.snake.length, 2);
    assert_eq!(tail_of(&g.snake), vec![pos(5, 5)]);
    assert!(!g.snake.tail.contains(&g.food.position));
    assert_ne!(g.food.position, g.snake.position);
    assert!(g.food.position.x >= 0 && g.food.position.x <= 8);
    assert!(g.food.position.y >= 0 && g.food.position.y <= 8);
    assert!(!g.over());
}

#[test]
fn food_leaves_the_head_of_a_still_snake() {
    let mut g = Game::new(Snake::new(4, 4), Food { position: pos(4, 4) }, view400());
    g.update(view400(), 1, Key::Q);
    assert_eq!(g.snake.length, 2);
    assert_eq!(tail_of(&g.snake), vec![pos(4, 4)]);
    assert_ne!(g.food.position, pos(4, 4));
    let food = g.food.position;
    g.update(view400(), 1, Key::Q);
    assert_eq!(g.snake.length, 2);
    assert_eq!(g.food.position, food);
    assert_eq!(g.snake.tail.len() + 1, g.snake.length as usize);
}

#[test]
fn spawn_avoids_the_head() {
    let mut s = snake_covering_all_but(pos(2, 6));
    s.position = pos(2, 6);
    let mut f = Food { position: pos(2, 6) };
    f.spawn(view400(), &s);
    assert!(f.position.x >= 0 && f.position.x <= 8);
    assert!(f.position.y >= 0 && f.position.y <= 8);
    let mut s2 = snake_covering_all_but(pos(2, 6));
    s2.tail.pop_back();
    s2.position = pos(2, 6);
    let last = pos(8, 8);
    let mut f2 = Food { position: pos(2, 6) };
    f2.spawn(view400(), &s2);
    assert_eq!(f2.position, last);
}

#[test]
fn game_without_food_under_head_keeps_food() {
    let mut g = Game::new(Snake::new(5, 5), Food { position: pos(1, 1) }, view400());
    g.update(Viewport { width: 500, height: 300 }, SNAKE_WAIT + 1, Key::S);
    assert_eq!(g.snake.position, pos(5, 6));
    assert_eq!(g.snake.length, 1);
    assert_eq!(g.food.position, pos(1, 1));
    assert_eq!(g.window_size, Viewport { width: 500, height: 300 });
}

#[test]
fn game_over_after_wall() {
    let mut g = Game::new(Snake::new(0, 0), Food { position: pos(8, 8) }, view400());
    g.update(view400(), SNAKE_WAIT + 1, Key::Left);
    assert!(!g.over());
    assert_eq!(g.snake.position, pos(-1, 0));
    g.update(view400(), SNAKE_WAIT + 1, Key::Left);
    assert!(g.over());
    assert_eq!(g.snake.position, pos(-1, 0));
}
