use snake_game::game::{DrawCmd, Game, Key, ShapeKind};
use snake_game::snake::{Block, Direction, Snake};

fn cell_rect(kind: ShapeKind, x: i32, y: i32) -> DrawCmd {
    DrawCmd::Rect { kind, x, y, width: 1, height: 1 }
}

#[test]
fn draw_lists_snake_food_and_borders() {
    let g = Game::new(10, 10);
    let cmds = g.draw();
    assert_eq!(
        cmds,
        vec![
            cell_rect(ShapeKind::SnakeBody, 2, 2),
            cell_rect(ShapeKind::SnakeBody, 1, 2),
            cell_rect(ShapeKind::SnakeBody, 0, 2),
            DrawCmd::Circle { kind: ShapeKind::Food, x: 6, y: 4 },
            cell_rect(ShapeKind::FoodStem, 6, 3),
            DrawCmd::Rect { kind: ShapeKind::Border, x: 0, y: 0, width: 10, height: 1 },
            DrawCmd::Rect { kind: ShapeKind::Border, x: 0, y: 9, width: 10, height: 1 },
            DrawCmd::Rect { kind: ShapeKind::Border, x: 0, y: 0, width: 1, height: 10 },
            DrawCmd::Rect { kind: ShapeKind::Border, x: 9, y: 0, width: 1, height: 10 },
        ]
    );
}

#[test]
fn draw_adds_overlay_and_drops_eaten_food() {
    // Drive a game into the wall so it is over, with the food already eaten.
    let mut g = Game {
        snake: Snake {
            body: vec![Block { x: 1, y: 1 }, Block { x: 1, y: 2 }, Block { x: 1, y: 3 }],
            direction: Direction::Up,
            tail: None,
            growth_pending: false,
        },
        food_exists: false,
        food_x: 6,
        food_y: 4,
        width: 12,
        height: 10,
        game_over: false,
        waiting_time: 0,
        moving_period: 100,
    };
    g.key_pressed(Key::Up);
    assert!(g.game_over);

    let cmds = g.draw();
    assert_eq!(cmds.len(), 3 + 4 + 1, "three body cells, four borders, one overlay");
    assert!(!cmds.iter().any(|c| matches!(c, DrawCmd::Circle { .. })));
    assert_eq!(
        cmds[7],
        DrawCmd::Rect { kind: ShapeKind::GameOverOverlay, x: 0, y: 0, width: 12, height: 10 }
    );
}
