//! The laws of the game, stated over the ghost models and proved once and
//! for all: body continuity, the two collision outcomes, deferred growth,
//! opposite-direction rejection, the speed clamps and the restart reset.

use vstd::prelude::*;

use crate::game::{
    decrease_spec, increase_spec, key_direction, GameModel, Key, DEFAULT_MOVING_PERIOD_MS,
    MAX_MOVING_PERIOD_MS, MIN_MOVING_PERIOD_MS,
};
use crate::snake::{adjacent, Block, Direction, SnakeModel};

verus! {

/// In every well-formed state — and every constructor and mutator of the
/// library ensures well-formedness — the body is non-empty and each
/// consecutive pair of cells differs by exactly one unit in exactly one
/// axis.
pub proof fn lemma_body_continuous(g: GameModel)
    requires
        g.wf(),
    ensures
        g.snake.body.len() >= 1,
        forall|i: int|
            0 <= i < g.snake.body.len() - 1 ==> adjacent(
                #[trigger] g.snake.body[i],
                g.snake.body[i + 1],
            ),
{
}

/// Self-collision: a step whose candidate head already lies in the body —
/// as any step into a 4 or more cell snake's own body is — transitions to
/// game over and leaves the snake unchanged.
pub proof fn lemma_self_collision(g: GameModel, dir: Option<Direction>)
    requires
        g.wf(),
        g.snake.body.len() >= 4,
        g.snake.overlaps(g.snake.next_head_spec(dir).x, g.snake.next_head_spec(dir).y),
    ensures
        g.step_spec(dir).game_over,
        g.step_spec(dir).snake == g.snake,
{
}

/// Border collision: a step whose candidate head lands on any of the four
/// one-cell border strips transitions to game over and leaves the snake
/// unchanged.
pub proof fn lemma_border_collision(g: GameModel, dir: Option<Direction>)
    requires
        g.wf(),
        g.snake.next_head_spec(dir).x == 0 || g.snake.next_head_spec(dir).x == g.width - 1
            || g.snake.next_head_spec(dir).y == 0 || g.snake.next_head_spec(dir).y == g.height - 1,
    ensures
        g.step_spec(dir).game_over,
        g.step_spec(dir).snake == g.snake,
{
}

/// Growth is deferred by one move: the step that eats clears the food and
/// leaves the body length unchanged; the following committed step grows the
/// body by exactly one cell.
pub proof fn lemma_growth_delayed(g: GameModel, d1: Option<Direction>, d2: Option<Direction>)
    requires
        g.wf(),
        !g.snake.growth_pending,
        g.food_exists,
        g.alive_spec(d1),
        g.snake.next_head_spec(d1) == (Block { x: g.food_x, y: g.food_y }),
        g.step_spec(d1).alive_spec(d2),
    ensures
        g.step_spec(d1).snake.body.len() == g.snake.body.len(),
        !g.step_spec(d1).food_exists,
        g.step_spec(d1).snake.growth_pending,
        g.step_spec(d1).step_spec(d2).snake.body.len() == g.snake.body.len() + 1,
{
    let g1 = g.step_spec(d1);
    assert(g1.snake.body.len() == g.snake.body.len());
    assert(g1.snake.growth_pending);
    let g2 = g1.step_spec(d2);
    assert(g2.snake.body.len() == g1.snake.body.len() + 1);
}

/// Pressing the key for the exact opposite of the current heading changes
/// nothing: no movement, no state change.
pub proof fn lemma_opposite_key_rejected(g: GameModel, key: Key)
    requires
        g.wf(),
        !g.game_over,
        key_direction(key) == Some(g.snake.direction.opposite_spec()),
    ensures
        g.key_spec(key) == g,
{
}

/// The speed clamps: from any in-range period, one speed change in either
/// direction stays within [MIN_MOVING_PERIOD_MS, MAX_MOVING_PERIOD_MS] — so
/// repeated changes do too — and a reset always lands on the default.
pub proof fn lemma_speed_clamped(p: int)
    requires
        MIN_MOVING_PERIOD_MS as int <= p <= MAX_MOVING_PERIOD_MS as int,
    ensures
        MIN_MOVING_PERIOD_MS as int <= increase_spec(p) <= MAX_MOVING_PERIOD_MS as int,
        MIN_MOVING_PERIOD_MS as int <= decrease_spec(p) <= MAX_MOVING_PERIOD_MS as int,
        decrease_spec(p) <= MAX_MOVING_PERIOD_MS as int,
        increase_spec(p) >= MIN_MOVING_PERIOD_MS as int,
        MIN_MOVING_PERIOD_MS as int <= DEFAULT_MOVING_PERIOD_MS as int
            <= MAX_MOVING_PERIOD_MS as int,
{
}

/// The restart after game over is a full reset: a fresh 3-cell snake heading
/// Right with its head back at the spawn cell (2, 2), food back at (6, 4),
/// the default period and the running state; only the board extents persist.
pub proof fn lemma_restart_resets(g: GameModel)
    ensures
        g.restart_spec().snake == SnakeModel::initial(2, 2),
        g.restart_spec().snake.body.len() == 3,
        g.restart_spec().snake.body[0] == (Block { x: 2, y: 2 }),
        g.restart_spec().snake.direction == Direction::Right,
        g.restart_spec().food_exists,
        g.restart_spec().food_x == 6,
        g.restart_spec().food_y == 4,
        !g.restart_spec().game_over,
        g.restart_spec().waiting_time == 0,
        g.restart_spec().moving_period == DEFAULT_MOVING_PERIOD_MS as int,
        g.restart_spec().width == g.width,
        g.restart_spec().height == g.height,
{
}

} // verus!
