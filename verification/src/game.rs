//! The game component: board, food, timers and the over/running state
//! machine, driving an owned [`Snake`].
//!
//! Time is counted in whole milliseconds. The outside driver feeds
//! [`Game::key_pressed`] and [`Game::update`]; drawing is returned by
//! [`Game::draw`] as a list of plain shape commands.

use rand::Rng;
use vstd::prelude::*;

use crate::snake::{adjacent, Block, Direction, Snake, SnakeModel};

verus! {

/// Milliseconds between automatic steps after construction or a speed reset.
pub const DEFAULT_MOVING_PERIOD_MS: u64 = 100;

/// Milliseconds the game-over screen stays before the game restarts.
pub const RESTART_TIME_MS: u64 = 1000;

/// Lower clamp of the moving period.
pub const MIN_MOVING_PERIOD_MS: u64 = 20;

/// Upper clamp of the moving period.
pub const MAX_MOVING_PERIOD_MS: u64 = 200;

/// Change of the moving period per speed key press.
pub const SPEED_CHANGE_STEP_MS: u64 = 10;

/// The key presses the game reacts to. Any key outside the four directions
/// and the three speed controls is `Other`, which continues the current
/// heading.
#[derive(Clone, Copy, PartialEq, Eq, Structural, Debug)]
pub enum Key {
    Up,
    Down,
    Left,
    Right,
    W,
    S,
    R,
    Other,
}

/// The direction a key asks for, if it is a directional key.
pub open spec fn key_direction(key: Key) -> Option<Direction> {
    match key {
        Key::Up => Some(Direction::Up),
        Key::Down => Some(Direction::Down),
        Key::Left => Some(Direction::Left),
        Key::Right => Some(Direction::Right),
        _ => None,
    }
}

/// `b` lies on the board, border cells included.
pub open spec fn in_board(b: Block, width: i32, height: i32) -> bool {
    0 <= b.x < width && 0 <= b.y < height
}

/// `(x, y)` lies strictly inside the one-cell border.
pub open spec fn in_interior(x: i32, y: i32, width: i32, height: i32) -> bool {
    0 < x < width - 1 && 0 < y < height - 1
}

/// Raising the speed: the period drops one step, clamped from below.
pub open spec fn increase_spec(p: int) -> int {
    if p - SPEED_CHANGE_STEP_MS >= MIN_MOVING_PERIOD_MS {
        p - SPEED_CHANGE_STEP_MS
    } else {
        MIN_MOVING_PERIOD_MS as int
    }
}

/// Lowering the speed: the period grows one step, clamped from above.
pub open spec fn decrease_spec(p: int) -> int {
    if p + SPEED_CHANGE_STEP_MS <= MAX_MOVING_PERIOD_MS {
        p + SPEED_CHANGE_STEP_MS
    } else {
        MAX_MOVING_PERIOD_MS as int
    }
}

/// What a drawn shape stands for; the renderer picks colors from it.
#[derive(Clone, Copy, PartialEq, Eq, Structural, Debug)]
pub enum ShapeKind {
    SnakeBody,
    Food,
    FoodStem,
    Border,
    GameOverOverlay,
}

/// One drawing command over whole cells: a filled rectangle of cells, or a
/// filled circle of half-cell radius centred on one cell.
#[derive(Clone, Copy, PartialEq, Eq, Structural, Debug)]
pub enum DrawCmd {
    Rect { kind: ShapeKind, x: i32, y: i32, width: i32, height: i32 },
    Circle { kind: ShapeKind, x: i32, y: i32 },
}

/// One unit rectangle per body cell, head first.
pub open spec fn snake_cmds(body: Seq<Block>) -> Seq<DrawCmd> {
    Seq::new(
        body.len(),
        |i: int|
            DrawCmd::Rect {
                kind: ShapeKind::SnakeBody,
                x: body[i].x,
                y: body[i].y,
                width: 1,
                height: 1,
            },
    )
}

/// The food, when present: a round body plus a one-cell stem above it.
pub open spec fn food_cmds(g: GameModel) -> Seq<DrawCmd> {
    if g.food_exists {
        seq![
            DrawCmd::Circle { kind: ShapeKind::Food, x: g.food_x, y: g.food_y },
            DrawCmd::Rect {
                kind: ShapeKind::FoodStem,
                x: g.food_x,
                y: (g.food_y - 1) as i32,
                width: 1,
                height: 1,
            },
        ]
    } else {
        Seq::empty()
    }
}

/// The four one-cell border strips.
pub open spec fn border_cmds(g: GameModel) -> Seq<DrawCmd> {
    seq![
        DrawCmd::Rect { kind: ShapeKind::Border, x: 0, y: 0, width: g.width, height: 1 },
        DrawCmd::Rect {
            kind: ShapeKind::Border,
            x: 0,
            y: (g.height - 1) as i32,
            width: g.width,
            height: 1,
        },
        DrawCmd::Rect { kind: ShapeKind::Border, x: 0, y: 0, width: 1, height: g.height },
        DrawCmd::Rect {
            kind: ShapeKind::Border,
            x: (g.width - 1) as i32,
            y: 0,
            width: 1,
            height: g.height,
        },
    ]
}

/// The full-board overlay shown while game over.
pub open spec fn overlay_cmds(g: GameModel) -> Seq<DrawCmd> {
    if g.game_over {
        seq![
            DrawCmd::Rect {
                kind: ShapeKind::GameOverOverlay,
                x: 0,
                y: 0,
                width: g.width,
                height: g.height,
            },
        ]
    } else {
        Seq::empty()
    }
}

/// Everything one frame draws, in order: the snake body, the food, the four
/// border strips, and the game-over overlay.
pub open spec fn draw_spec(g: GameModel) -> Seq<DrawCmd> {
    snake_cmds(g.snake.body) + food_cmds(g) + border_cmds(g) + overlay_cmds(g)
}

/// The mathematical value of a [`Game`].
#[verifier::ext_equal]
pub ghost struct GameModel {
    pub snake: SnakeModel,
    pub food_exists: bool,
    pub food_x: i32,
    pub food_y: i32,
    pub width: i32,
    pub height: i32,
    pub game_over: bool,
    pub waiting_time: int,
    pub moving_period: int,
}

impl GameModel {
    /// Every reachable game state satisfies this: a continuous non-empty
    /// snake on the board, food (when present) strictly inside the border,
    /// the moving period within its clamps, and sane dimensions.
    pub open spec fn wf(self) -> bool {
        &&& self.snake.wf()
        &&& forall|i: int|
            0 <= i < self.snake.body.len() ==> in_board(
                #[trigger] self.snake.body[i],
                self.width,
                self.height,
            )
        &&& self.food_exists ==> in_interior(self.food_x, self.food_y, self.width, self.height)
        &&& MIN_MOVING_PERIOD_MS as int <= self.moving_period <= MAX_MOVING_PERIOD_MS as int
        &&& 8 <= self.width
        &&& 8 <= self.height
        &&& 0 <= self.waiting_time
    }

    /// The state right after construction on a `width` x `height` board.
    pub open spec fn initial(width: i32, height: i32) -> GameModel {
        GameModel {
            snake: SnakeModel::initial(2, 2),
            food_exists: true,
            food_x: 6,
            food_y: 4,
            width,
            height,
            game_over: false,
            waiting_time: 0,
            moving_period: DEFAULT_MOVING_PERIOD_MS as int,
        }
    }

    /// A candidate step stays alive: the next head hits neither the body nor
    /// the one-cell border.
    pub open spec fn alive_spec(self, dir: Option<Direction>) -> bool {
        let nh = self.snake.next_head_spec(dir);
        &&& !self.snake.overlaps(nh.x, nh.y)
        &&& in_interior(nh.x, nh.y, self.width, self.height)
    }

    /// Eating: when the head sits on present food, the food is cleared and
    /// growth is enqueued for the next move.
    pub open spec fn eat_spec(self) -> GameModel {
        if self.food_exists && self.snake.body[0].x == self.food_x && self.snake.body[0].y
            == self.food_y {
            GameModel {
                food_exists: false,
                snake: SnakeModel { growth_pending: true, ..self.snake },
                ..self
            }
        } else {
            self
        }
    }

    /// One step application, shared by forced and periodic steps: commit the
    /// move and check eating if the candidate is alive, else go to game over;
    /// either way the waiting time restarts.
    pub open spec fn step_spec(self, dir: Option<Direction>) -> GameModel {
        if self.alive_spec(dir) {
            let moved = GameModel { snake: self.snake.move_spec(dir), ..self };
            GameModel { waiting_time: 0, ..moved.eat_spec() }
        } else {
            GameModel { game_over: true, waiting_time: 0, ..self }
        }
    }

    /// What a key press does: nothing while game over; speed keys mutate only
    /// the period; a direction equal to the exact opposite of the heading is
    /// rejected; any other accepted direction forces an immediate step.
    pub open spec fn key_spec(self, key: Key) -> GameModel {
        if self.game_over {
            self
        } else {
            match key {
                Key::W => GameModel { moving_period: increase_spec(self.moving_period), ..self },
                Key::S => GameModel { moving_period: decrease_spec(self.moving_period), ..self },
                Key::R => GameModel { moving_period: DEFAULT_MOVING_PERIOD_MS as int, ..self },
                _ => {
                    let d = match key_direction(key) {
                        Some(d) => d,
                        None => self.snake.direction,
                    };
                    if d == self.snake.direction.opposite_spec() {
                        self
                    } else {
                        self.step_spec(Some(d))
                    }
                },
            }
        }
    }

    /// Accumulating a frame's elapsed time.
    pub open spec fn with_elapsed(self, dt: int) -> GameModel {
        GameModel { waiting_time: self.waiting_time + dt, ..self }
    }

    /// Food placed at `(x, y)`.
    pub open spec fn place_food(self, x: i32, y: i32) -> GameModel {
        GameModel { food_exists: true, food_x: x, food_y: y, ..self }
    }

    /// The periodic part of `update`: one automatic step once the waiting
    /// time exceeds the moving period.
    pub open spec fn tick_spec(self) -> GameModel {
        if self.waiting_time > self.moving_period {
            self.step_spec(None)
        } else {
            self
        }
    }

    /// The restart: snake, food, timers and speed return to their
    /// construction-time defaults; only the board extents are kept.
    pub open spec fn restart_spec(self) -> GameModel {
        GameModel::initial(self.width, self.height)
    }
}

/// The game state: the owned snake, the food cell, the board extents, the
/// over/running flag and the two timing accumulators (milliseconds).
pub struct Game {
    pub snake: Snake,
    pub food_exists: bool,
    pub food_x: i32,
    pub food_y: i32,
    pub width: i32,
    pub height: i32,
    pub game_over: bool,
    pub waiting_time: u64,
    pub moving_period: u64,
}

impl View for Game {
    type V = GameModel;

    open spec fn view(&self) -> GameModel {
        GameModel {
            snake: self.snake@,
            food_exists: self.food_exists,
            food_x: self.food_x,
            food_y: self.food_y,
            width: self.width,
            height: self.height,
            game_over: self.game_over,
            waiting_time: self.waiting_time as int,
            moving_period: self.moving_period as int,
        }
    }
}

/// Relies on rand::Rng::gen_range on rand::thread_rng: a uniformly random
/// value in `[low, high)`; it panics only on an empty range, which the
/// precondition excludes.
#[verifier::external_body]
fn random_in_range(low: i32, high: i32) -> (r: i32)
    requires
        low < high,
    ensures
        low <= r < high,
{
    rand::thread_rng().gen_range(low..high)
}

/// The snake covers every interior cell, so no free cell is left for food.
pub open spec fn interior_full(s: SnakeModel, width: i32, height: i32) -> bool {
    forall|x: i32, y: i32| in_interior(x, y, width, height) ==> s.overlaps(x, y)
}

/// The first free interior cell in row-major order; (1, 1) when the whole
/// interior is covered by the snake.
fn scan_free_cell(snake: &Snake, width: i32, height: i32) -> (r: (i32, i32))
    requires
        8 <= width,
        8 <= height,
    ensures
        in_interior(r.0, r.1, width, height),
        !snake@.overlaps(r.0, r.1) || interior_full(snake@, width, height),
{
    let mut y: i32 = 1;
    while y < height - 1
        invariant
            8 <= width,
            8 <= height,
            1 <= y <= height - 1,
            forall|px: i32, py: i32|
                in_interior(px, py, width, height) && py < y ==> #[trigger] snake@.overlaps(
                    px,
                    py,
                ),
        decreases height - 1 - y,
    {
        let mut x: i32 = 1;
        while x < width - 1
            invariant
                8 <= width,
                8 <= height,
                1 <= y < height - 1,
                1 <= x <= width - 1,
                forall|px: i32, py: i32|
                    in_interior(px, py, width, height) && py < y ==> #[trigger] snake@.overlaps(
                        px,
                        py,
                    ),
                forall|px: i32| 1 <= px < x ==> #[trigger] snake@.overlaps(px, y),
            decreases width - 1 - x,
        {
            if !snake.overlap_tail(x, y) {
                return (x, y);
            }
            x = x + 1;
        }
        y = y + 1;
    }
    (1, 1)
}

/// A random free interior cell: uniform rejection sampling with a bounded
/// number of retries, falling back to a row-major scan so that the search
/// terminates even on a nearly full board.
fn random_free_cell(snake: &Snake, width: i32, height: i32) -> (r: (i32, i32))
    requires
        8 <= width,
        8 <= height,
    ensures
        in_interior(r.0, r.1, width, height),
        !snake@.overlaps(r.0, r.1) || interior_full(snake@, width, height),
{
    let mut tries: u32 = 0;
    while tries < 64
        invariant
            8 <= width,
            8 <= height,
        decreases 64 - tries,
    {
        let x = random_in_range(1, width - 1);
        let y = random_in_range(1, height - 1);
        if !snake.overlap_tail(x, y) {
            return (x, y);
        }
        tries = tries + 1;
    }
    scan_free_cell(snake, width, height)
}

impl Game {
    /// A fresh game on a `width` x `height` board: 3-cell snake with its
    /// head at (2, 2) heading Right, food at (6, 4), running, default speed.
    pub fn new(width: i32, height: i32) -> (g: Game)
        requires
            8 <= width,
            8 <= height,
        ensures
            g@ == GameModel::initial(width, height),
            g@.wf(),
    {
        let g = Game {
            snake: Snake::new(2, 2),
            waiting_time: 0,
            food_exists: true,
            food_x: 6,
            food_y: 4,
            width,
            height,
            game_over: false,
            moving_period: DEFAULT_MOVING_PERIOD_MS,
        };
        proof {
            lemma_initial_wf(width, height);
            assert(g@ =~= GameModel::initial(width, height));
        }
        g
    }

    /// Interpret one key press, as [`GameModel::key_spec`] states: a no-op
    /// while game over; speed keys mutate only the period; an accepted
    /// direction (never the exact opposite of the heading) forces an
    /// immediate step.
    pub fn key_pressed(&mut self, key: Key)
        requires
            old(self)@.wf(),
        ensures
            final(self)@ == old(self)@.key_spec(key),
            final(self)@.wf(),
    {
        if self.game_over {
            return;
        }
        let dir: Option<Direction> = match key {
            Key::Up => Some(Direction::Up),
            Key::Down => Some(Direction::Down),
            Key::Left => Some(Direction::Left),
            Key::Right => Some(Direction::Right),
            Key::W => {
                self.increase_speed();
                None
            },
            Key::S => {
                self.decrease_speed();
                None
            },
            Key::R => {
                self.reset_speed();
                None
            },
            Key::Other => Some(self.snake.head_direction()),
        };
        if let Some(d) = dir {
            if d != self.snake.head_direction().opposite() {
                self.update_snake(Some(d));
            }
        }
        proof {
            assert(final(self)@ =~= old(self)@.key_spec(key));
        }
    }

    /// Advance time by `delta_time` milliseconds: while game over, restart
    /// once the accumulated time reaches the restart delay; otherwise spawn
    /// food if none exists, then take one automatic step once the waiting
    /// time exceeds the moving period.
    pub fn update(&mut self, delta_time: u64)
        requires
            old(self)@.wf(),
            old(self)@.waiting_time + delta_time <= u64::MAX,
        ensures
            old(self)@.game_over ==> final(self)@ == (if old(self)@.with_elapsed(
                delta_time as int,
            ).waiting_time >= RESTART_TIME_MS as int {
                old(self)@.restart_spec()
            } else {
                old(self)@.with_elapsed(delta_time as int)
            }),
            !old(self)@.game_over && old(self)@.food_exists ==> final(self)@ == old(self)@.with_elapsed(
                delta_time as int,
            ).tick_spec(),
            !old(self)@.game_over && !old(self)@.food_exists ==> in_interior(
                final(self)@.food_x,
                final(self)@.food_y,
                old(self)@.width,
                old(self)@.height,
            ) && (!old(self)@.snake.overlaps(final(self)@.food_x, final(self)@.food_y)
                || interior_full(old(self)@.snake, old(self)@.width, old(self)@.height)) && final(self)@
                == old(self)@.with_elapsed(delta_time as int).place_food(
                final(self)@.food_x,
                final(self)@.food_y,
            ).tick_spec(),
            final(self)@.wf(),
    {
        self.waiting_time = self.waiting_time + delta_time;
        if self.game_over {
            if self.waiting_time >= RESTART_TIME_MS {
                self.restart();
            }
            return;
        }
        if !self.food_exists {
            self.add_food();
        }
        if self.waiting_time > self.moving_period {
            self.update_snake(None);
        }
        proof {
            if old(self)@.food_exists {
                assert(final(self)@ =~= old(self)@.with_elapsed(delta_time as int).tick_spec());
            } else {
                assert(final(self)@ =~= old(self)@.with_elapsed(delta_time as int).place_food(
                    final(self)@.food_x,
                    final(self)@.food_y,
                ).tick_spec());
            }
        }
    }

    /// A pure read of the state into drawing commands: the snake body, the
    /// food (round body plus stem) when present, the four border strips, and
    /// a full-board overlay while game over.
    pub fn draw(&self) -> (cmds: Vec<DrawCmd>)
        requires
            self@.wf(),
        ensures
            cmds@ == draw_spec(self@),
    {
        let mut cmds: Vec<DrawCmd> = Vec::new();
        let mut i: usize = 0;
        while i < self.snake.body.len()
            invariant
                0 <= i <= self@.snake.body.len(),
                cmds@ == snake_cmds(self@.snake.body).subrange(0, i as int),
            decreases self@.snake.body.len() - i,
        {
            let b = self.snake.body[i];
            cmds.push(
                DrawCmd::Rect { kind: ShapeKind::SnakeBody, x: b.x, y: b.y, width: 1, height: 1 },
            );
            i = i + 1;
            proof {
                assert(cmds@ =~= snake_cmds(self@.snake.body).subrange(0, i as int));
            }
        }
        proof {
            assert(cmds@ =~= snake_cmds(self@.snake.body));
        }
        let ghost after_snake = cmds@;
        if self.food_exists {
            cmds.push(DrawCmd::Circle { kind: ShapeKind::Food, x: self.food_x, y: self.food_y });
            cmds.push(
                DrawCmd::Rect {
                    kind: ShapeKind::FoodStem,
                    x: self.food_x,
                    y: self.food_y - 1,
                    width: 1,
                    height: 1,
                },
            );
        }
        proof {
            assert(cmds@ =~= after_snake + food_cmds(self@));
        }
        let ghost after_food = cmds@;
        cmds.push(DrawCmd::Rect { kind: ShapeKind::Border, x: 0, y: 0, width: self.width, height: 1 });
        cmds.push(
            DrawCmd::Rect {
                kind: ShapeKind::Border,
                x: 0,
                y: self.height - 1,
                width: self.width,
                height: 1,
            },
        );
        cmds.push(DrawCmd::Rect { kind: ShapeKind::Border, x: 0, y: 0, width: 1, height: self.height });
        cmds.push(
            DrawCmd::Rect {
                kind: ShapeKind::Border,
                x: self.width - 1,
                y: 0,
                width: 1,
                height: self.height,
            },
        );
        proof {
            assert(cmds@ =~= after_food + border_cmds(self@));
        }
        let ghost after_border = cmds@;
        if self.game_over {
            cmds.push(
                DrawCmd::Rect {
                    kind: ShapeKind::GameOverOverlay,
                    x: 0,
                    y: 0,
                    width: self.width,
                    height: self.height,
                },
            );
        }
        proof {
            assert(cmds@ =~= after_border + overlay_cmds(self@));
            assert(cmds@ =~= draw_spec(self@));
        }
        cmds
    }

    /// Whether a step in `dir` keeps the snake alive: the candidate head
    /// neither overlaps the body nor lies on or outside the border.
    fn check_if_snake_alive(&self, dir: Option<Direction>) -> (r: bool)
        requires
            self@.wf(),
        ensures
            r == self@.alive_spec(dir),
    {
        let (next_x, next_y) = self.snake.next_head(dir);
        if self.snake.overlap_tail(next_x, next_y) {
            return false;
        }
        next_x > 0 && next_y > 0 && next_x < self.width - 1 && next_y < self.height - 1
    }

    /// Clear the food and enqueue growth when the head has just landed on it.
    fn check_eating(&mut self)
        requires
            old(self)@.snake.wf(),
        ensures
            final(self)@ == old(self)@.eat_spec(),
    {
        let (head_x, head_y): (i32, i32) = self.snake.head_position();
        if self.food_exists && self.food_x == head_x && self.food_y == head_y {
            self.food_exists = false;
            self.snake.restore_tail();
        }
        proof {
            assert(final(self)@ =~= old(self)@.eat_spec());
        }
    }

    /// The step application shared by forced and periodic steps.
    fn update_snake(&mut self, dir: Option<Direction>)
        requires
            old(self)@.wf(),
        ensures
            final(self)@ == old(self)@.step_spec(dir),
            final(self)@.wf(),
    {
        proof {
            lemma_step_preserves_wf(old(self)@, dir);
        }
        if self.check_if_snake_alive(dir) {
            self.snake.move_forward(dir);
            self.check_eating();
        } else {
            self.game_over = true;
        }
        self.waiting_time = 0;
        proof {
            assert(final(self)@ =~= old(self)@.step_spec(dir));
        }
    }

    /// Spawn food on a random free interior cell.
    fn add_food(&mut self)
        requires
            old(self)@.wf(),
        ensures
            in_interior(final(self)@.food_x, final(self)@.food_y, old(self)@.width, old(self)@.height),
            !old(self)@.snake.overlaps(final(self)@.food_x, final(self)@.food_y) || interior_full(
                old(self)@.snake,
                old(self)@.width,
                old(self)@.height,
            ),
            final(self)@ == old(self)@.place_food(final(self)@.food_x, final(self)@.food_y),
            final(self)@.wf(),
    {
        let (new_x, new_y) = random_free_cell(&self.snake, self.width, self.height);
        self.food_x = new_x;
        self.food_y = new_y;
        self.food_exists = true;
        proof {
            assert(final(self)@ =~= old(self)@.place_food(new_x, new_y));
        }
    }

    /// Reset everything but the board extents to the construction defaults.
    fn restart(&mut self)
        requires
            8 <= old(self)@.width,
            8 <= old(self)@.height,
        ensures
            final(self)@ == old(self)@.restart_spec(),
            final(self)@.wf(),
    {
        self.snake = Snake::new(2, 2);
        self.waiting_time = 0;
        self.food_exists = true;
        self.food_x = 6;
        self.food_y = 4;
        self.game_over = false;
        self.moving_period = DEFAULT_MOVING_PERIOD_MS;
        proof {
            lemma_initial_wf(self.width, self.height);
            assert(final(self)@ =~= old(self)@.restart_spec());
        }
    }

    /// One speed step faster, clamped at the minimum period.
    fn increase_speed(&mut self)
        requires
            MIN_MOVING_PERIOD_MS as int <= old(self)@.moving_period,
        ensures
            final(self)@ == (GameModel {
                moving_period: increase_spec(old(self)@.moving_period),
                ..old(self)@
            }),
    {
        if self.moving_period >= MIN_MOVING_PERIOD_MS + SPEED_CHANGE_STEP_MS {
            self.moving_period = self.moving_period - SPEED_CHANGE_STEP_MS;
        } else {
            self.moving_period = MIN_MOVING_PERIOD_MS;
        }
        proof {
            assert(final(self)@ =~= (GameModel {
                moving_period: increase_spec(old(self)@.moving_period),
                ..old(self)@
            }));
        }
    }

    /// One speed step slower, clamped at the maximum period.
    fn decrease_speed(&mut self)
        requires
            old(self)@.moving_period <= MAX_MOVING_PERIOD_MS as int,
        ensures
            final(self)@ == (GameModel {
                moving_period: decrease_spec(old(self)@.moving_period),
                ..old(self)@
            }),
    {
        if self.moving_period + SPEED_CHANGE_STEP_MS <= MAX_MOVING_PERIOD_MS {
            self.moving_period = self.moving_period + SPEED_CHANGE_STEP_MS;
        } else {
            self.moving_period = MAX_MOVING_PERIOD_MS;
        }
        proof {
            assert(final(self)@ =~= (GameModel {
                moving_period: decrease_spec(old(self)@.moving_period),
                ..old(self)@
            }));
        }
    }

    /// Back to the default period.
    fn reset_speed(&mut self)
        ensures
            final(self)@ == (GameModel {
                moving_period: DEFAULT_MOVING_PERIOD_MS as int,
                ..old(self)@
            }),
    {
        self.moving_period = DEFAULT_MOVING_PERIOD_MS;
        proof {
            assert(final(self)@ =~= (GameModel {
                moving_period: DEFAULT_MOVING_PERIOD_MS as int,
                ..old(self)@
            }));
        }
    }
}

/// The construction-time state is well-formed on any board of at least 8x8
/// cells.
pub proof fn lemma_initial_wf(width: i32, height: i32)
    requires
        8 <= width,
        8 <= height,
    ensures
        GameModel::initial(width, height).wf(),
{
    let g = GameModel::initial(width, height);
    assert(g.snake.body[0] == (Block { x: 2, y: 2 }));
    assert(g.snake.body[1] == (Block { x: 1, y: 2 }));
    assert(g.snake.body[2] == (Block { x: 0, y: 2 }));
    assert(adjacent(g.snake.body[0], g.snake.body[1]));
    assert(adjacent(g.snake.body[1], g.snake.body[2]));
    assert forall|i: int| 0 <= i < g.snake.body.len() implies in_board(
        #[trigger] g.snake.body[i],
        width,
        height,
    ) by {
        assert(i == 0 || i == 1 || i == 2);
    }
}

/// A step keeps the state well-formed: a committed move puts the head on an
/// interior cell and shifts a path that was already continuous; a rejected
/// one only flips the over flag.
pub proof fn lemma_step_preserves_wf(g: GameModel, dir: Option<Direction>)
    requires
        g.wf(),
    ensures
        g.step_spec(dir).wf(),
{
    if g.alive_spec(dir) {
        crate::snake::lemma_move_preserves_wf(g.snake, dir);
        let m = g.snake.move_spec(dir);
        let nh = g.snake.next_head_spec(dir);
        assert forall|i: int| 0 <= i < m.body.len() implies in_board(
            #[trigger] m.body[i],
            g.width,
            g.height,
        ) by {
            if i == 0 {
                assert(m.body[0] == nh);
            } else {
                assert(m.body[i] == g.snake.body[i - 1]);
            }
        }
    }
}

} // verus!
