use snake_game::game::{
    Game, Key, DEFAULT_MOVING_PERIOD_MS, MAX_MOVING_PERIOD_MS, MIN_MOVING_PERIOD_MS,
    RESTART_TIME_MS,
};
use snake_game::snake::{Block, Direction, Snake};

fn block(x: i32, y: i32) -> Block {
    Block { x, y }
}

fn game_with_snake(body: Vec<Block>, direction: Direction) -> Game {
    Game {
        snake: Snake { body, direction, tail: None, growth_pending: false },
        food_exists: true,
        food_x: 6,
        food_y: 4,
        width: 10,
        height: 10,
        game_over: false,
        waiting_time: 0,
        moving_period: DEFAULT_MOVING_PERIOD_MS,
    }
}

#[test]
fn new_game_defaults() {
    let g = Game::new(30, 30);
    assert_eq!(g.snake.body, vec![block(2, 2), block(1, 2), block(0, 2)]);
    assert_eq!(g.snake.direction, Direction::Right);
    assert!(g.food_exists);
    assert_eq!((g.food_x, g.food_y), (6, 4));
    assert_eq!((g.width, g.height), (30, 30));
    assert!(!g.game_over);
    assert_eq!(g.waiting_time, 0);
    assert_eq!(g.moving_period, DEFAULT_MOVING_PERIOD_MS);
}

#[test]
fn eating_grows_one_move_later() {
    // Board 10x10, snake spawned at (2, 2) heading Right, food forced at (3, 2).
    let mut g = Game::new(10, 10);
    g.food_x = 3;
    g.food_y = 2;

    // One forced step Right eats the food but does not grow yet.
    g.key_pressed(Key::Right);
    assert_eq!(g.snake.head_position(), (3, 2));
    assert!(!g.food_exists);
    assert_eq!(g.snake.body.len(), 3);
    assert!(!g.game_over);

    // The next automatic step grows the body to 4 cells.
    g.update(DEFAULT_MOVING_PERIOD_MS + 1);
    assert_eq!(g.snake.head_position(), (4, 2));
    assert_eq!(g.snake.body.len(), 4);
    assert!(!g.game_over);
}

#[test]
fn border_step_up_is_fatal() {
    // Snake of length 3 at (1,1)-(1,2)-(1,3) heading Up; a forced step Up
    // to (1, 0) is a border violation.
    let mut g = game_with_snake(vec![block(1, 1), block(1, 2), block(1, 3)], Direction::Up);
    g.key_pressed(Key::Up);
    assert!(g.game_over);
    assert_eq!(g.snake.body, vec![block(1, 1), block(1, 2), block(1, 3)]);
}

#[test]
fn every_border_side_is_fatal() {
    let mut left = game_with_snake(vec![block(1, 5), block(2, 5), block(3, 5)], Direction::Left);
    left.key_pressed(Key::Left);
    assert!(left.game_over, "x = 0 kills");

    let mut right = game_with_snake(vec![block(8, 5), block(7, 5), block(6, 5)], Direction::Right);
    right.key_pressed(Key::Right);
    assert!(right.game_over, "x = width - 1 kills");

    let mut up = game_with_snake(vec![block(5, 1), block(5, 2), block(5, 3)], Direction::Up);
    up.key_pressed(Key::Up);
    assert!(up.game_over, "y = 0 kills");

    let mut down = game_with_snake(vec![block(5, 8), block(5, 7), block(5, 6)], Direction::Down);
    down.key_pressed(Key::Down);
    assert!(down.game_over, "y = height - 1 kills");
}

#[test]
fn self_collision_is_fatal_and_leaves_body() {
    // A 4-cell hook: stepping Right from (5, 5) lands on (6, 5), a body cell.
    let body = vec![block(5, 5), block(5, 6), block(6, 6), block(6, 5)];
    let mut g = game_with_snake(body.clone(), Direction::Up);
    g.key_pressed(Key::Right);
    assert!(g.game_over);
    assert_eq!(g.snake.body, body);
}

#[test]
fn opposite_direction_is_rejected() {
    let mut g = Game::new(10, 10);
    let body_before = g.snake.body.clone();
    g.key_pressed(Key::Left); // heading is Right; Left is its exact opposite
    assert_eq!(g.snake.body, body_before);
    assert_eq!(g.snake.direction, Direction::Right);
    assert!(!g.game_over);
    assert!(g.food_exists);
    assert_eq!(g.waiting_time, 0);
    assert_eq!(g.moving_period, DEFAULT_MOVING_PERIOD_MS);
}

#[test]
fn other_key_continues_current_heading() {
    let mut g = Game::new(10, 10);
    g.key_pressed(Key::Other);
    assert_eq!(g.snake.head_position(), (3, 2));
    assert_eq!(g.snake.direction, Direction::Right);
}

#[test]
fn keys_are_ignored_while_game_over() {
    let mut g = game_with_snake(vec![block(1, 1), block(1, 2), block(1, 3)], Direction::Up);
    g.key_pressed(Key::Up);
    assert!(g.game_over);
    let body_before = g.snake.body.clone();
    g.key_pressed(Key::Down);
    g.key_pressed(Key::W);
    assert!(g.game_over);
    assert_eq!(g.snake.body, body_before);
    assert_eq!(g.moving_period, DEFAULT_MOVING_PERIOD_MS);
}

#[test]
fn speed_is_clamped_and_reset() {
    let mut g = Game::new(10, 10);
    for _ in 0..15 {
        g.key_pressed(Key::S);
        assert!(g.moving_period <= MAX_MOVING_PERIOD_MS);
    }
    assert_eq!(g.moving_period, MAX_MOVING_PERIOD_MS);

    for _ in 0..30 {
        g.key_pressed(Key::W);
        assert!(g.moving_period >= MIN_MOVING_PERIOD_MS);
    }
    assert_eq!(g.moving_period, MIN_MOVING_PERIOD_MS);

    g.key_pressed(Key::R);
    assert_eq!(g.moving_period, DEFAULT_MOVING_PERIOD_MS);
}

#[test]
fn speed_steps_by_ten_milliseconds() {
    let mut g = Game::new(10, 10);
    g.key_pressed(Key::S);
    assert_eq!(g.moving_period, 110);
    g.key_pressed(Key::W);
    g.key_pressed(Key::W);
    assert_eq!(g.moving_period, 90);
}

#[test]
fn restart_after_game_over_resets_everything() {
    let mut g = game_with_snake(vec![block(1, 1), block(1, 2), block(1, 3)], Direction::Up);
    g.moving_period = MAX_MOVING_PERIOD_MS;
    g.food_x = 4;
    g.food_y = 4;
    g.key_pressed(Key::Up);
    assert!(g.game_over);

    // Not enough elapsed time yet: still game over.
    g.update(RESTART_TIME_MS / 2);
    assert!(g.game_over);

    // Cumulative elapsed time reaches the restart delay: full reset.
    g.update(RESTART_TIME_MS / 2);
    assert!(!g.game_over);
    assert_eq!(g.snake.body, vec![block(2, 2), block(1, 2), block(0, 2)]);
    assert_eq!(g.snake.direction, Direction::Right);
    assert!(g.food_exists);
    assert_eq!((g.food_x, g.food_y), (6, 4));
    assert_eq!(g.moving_period, DEFAULT_MOVING_PERIOD_MS);
    assert_eq!(g.waiting_time, 0);
    assert_eq!((g.width, g.height), (10, 10));
}

#[test]
fn update_steps_only_after_the_period() {
    let mut g = Game::new(10, 10);
    g.update(50);
    assert_eq!(g.snake.head_position(), (2, 2));
    assert_eq!(g.waiting_time, 50);
    g.update(51);
    assert_eq!(g.snake.head_position(), (3, 2));
    assert_eq!(g.waiting_time, 0);
}

#[test]
fn update_spawns_food_on_a_free_interior_cell() {
    let mut g = Game::new(10, 10);
    g.food_exists = false;
    g.update(1);
    assert!(g.food_exists);
    assert!(0 < g.food_x && g.food_x < g.width - 1);
    assert!(0 < g.food_y && g.food_y < g.height - 1);
    assert!(!g.snake.overlap_tail(g.food_x, g.food_y));
}

#[test]
fn food_spawns_are_not_constant() {
    let mut g = Game::new(30, 30);
    let mut positions = Vec::new();
    for _ in 0..50 {
        g.food_exists = false;
        g.update(1);
        assert!(g.food_exists);
        positions.push((g.food_x, g.food_y));
    }
    let first = positions[0];
    assert!(
        positions.iter().any(|p| *p != first),
        "fifty spawns all landed on one cell"
    );
}
