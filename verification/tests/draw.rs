use snake_game::draw::{to_coord, to_coord_u32, Color, DrawCommand, BLOCK_SIZE};
use snake_game::game::{Game, Key, FOOTER_HEIGHT};
use snake_game::snake::{Direction, Snake};

#[test]
fn block_size_is_fifteen_pixels() {
    assert_eq!(BLOCK_SIZE, 15);
}

#[test]
fn to_coord_scales_by_block_size() {
    assert_eq!(to_coord_u32(1), 15);
    assert_eq!(to_coord_u32(20), 300);
    assert_eq!(to_coord_u32(14), 210);
}

#[test]
fn to_coord_clamps_below_at_zero() {
    assert_eq!(to_coord_u32(0), 0);
    assert_eq!(to_coord_u32(-1), 0);
    assert_eq!(to_coord_u32(i32::MIN), 0);
}

#[test]
fn to_coord_clamps_above_at_u32_max() {
    assert_eq!(to_coord_u32(286_331_153), u32::MAX);
    assert_eq!(to_coord_u32(286_331_152), 4_294_967_280);
    assert_eq!(to_coord_u32(286_331_154), u32::MAX);
    assert_eq!(to_coord_u32(i32::MAX), u32::MAX);
}

#[test]
fn to_coord_agrees_with_scaling_in_floating_point() {
    for coord in [-7, 0, 3, 1000, 286_331_153, 286_331_154, i32::MAX, i32::MIN] {
        let expected = ((coord as f64) * 15.0) as u32;
        assert_eq!(to_coord_u32(coord), expected);
    }
}

#[test]
fn snake_draws_one_block_per_segment_head_first() {
    let mut snake = Snake::new(2, 2);
    snake.move_forward(Some(Direction::Down));
    assert_eq!(
        snake.draw(),
        vec![
            DrawCommand::Block { color: Color::Snake, x: 2, y: 3 },
            DrawCommand::Block { color: Color::Snake, x: 2, y: 2 },
            DrawCommand::Block { color: Color::Snake, x: 1, y: 2 },
        ]
    );
}

fn frame_of_fresh_game() -> Vec<DrawCommand> {
    vec![
        DrawCommand::Block { color: Color::Snake, x: 2, y: 2 },
        DrawCommand::Block { color: Color::Snake, x: 1, y: 2 },
        DrawCommand::Block { color: Color::Snake, x: 0, y: 2 },
        DrawCommand::Block { color: Color::FlashingFood, x: 6, y: 4 },
        DrawCommand::Rectangle { color: Color::Border, x: 0, y: 0, width: 20, height: 1 },
        DrawCommand::Rectangle { color: Color::Border, x: 0, y: 13, width: 20, height: 1 },
        DrawCommand::Rectangle { color: Color::Border, x: 0, y: 0, width: 1, height: 14 },
        DrawCommand::Rectangle { color: Color::Border, x: 19, y: 0, width: 1, height: 14 },
        DrawCommand::Rectangle {
            color: Color::Border,
            x: 0,
            y: 14,
            width: 20,
            height: FOOTER_HEIGHT,
        },
        DrawCommand::Number { color: Color::Score, value: 0, x: 18, y: 15 },
    ]
}

#[test]
fn fresh_game_draws_snake_food_borders_footer_and_score() {
    let game = Game::new(20, 20);
    assert_eq!(game.draw(), frame_of_fresh_game());
}

#[test]
fn food_colour_follows_the_flashing_flag() {
    let mut game = Game::new(20, 20);
    game.update(200_001);
    assert!(game.food_flashing());
    let cmds = game.draw();
    assert_eq!(cmds[3], DrawCommand::Block { color: Color::Food, x: 6, y: 4 });
}

#[test]
fn lost_game_is_veiled() {
    let mut game = Game::new(20, 20);
    game.key_pressed(Key::Up);
    game.key_pressed(Key::Up);
    assert!(game.is_game_over());
    let cmds = game.draw();
    assert_eq!(cmds.len(), 11);
    assert_eq!(
        cmds[10],
        DrawCommand::Rectangle { color: Color::GameOver, x: 0, y: 0, width: 20, height: 14 }
    );
}

#[test]
fn eaten_food_is_not_drawn_and_score_shows() {
    let mut game = Game::new(20, 20);
    for key in [Key::Down, Key::Down, Key::Right, Key::Right, Key::Right, Key::Right] {
        game.key_pressed(key);
    }
    assert!(!game.food_exists());
    let cmds = game.draw();
    assert_eq!(cmds.len(), 9);
    assert!(cmds[..3].iter().all(|c| matches!(c, DrawCommand::Block { color: Color::Snake, .. })));
    assert_eq!(cmds[3], DrawCommand::Rectangle {
        color: Color::Border,
        x: 0,
        y: 0,
        width: 20,
        height: 1
    });
    assert_eq!(cmds[8], DrawCommand::Number { color: Color::Score, value: 1, x: 18, y: 15 });
}

#[test]
fn draw_leaves_the_game_as_it_is() {
    let mut game = Game::new(20, 20);
    game.update(150_000);
    game.key_pressed(Key::Down);
    game.update(30_000);
    let observe = |g: &Game| {
        (
            (0..g.snake().len()).map(|i| g.snake().segment(i)).collect::<Vec<_>>(),
            g.snake().head_direction(),
            g.snake().is_growing(),
            g.snake().tail(),
            g.food_exists(),
            g.food_position(),
            g.food_flashing(),
            g.score(),
            (g.width(), g.height()),
            g.is_game_over(),
            (g.waiting_time(), g.flashing_time()),
        )
    };
    let before = observe(&game);
    let first = game.draw();
    let second = game.draw();
    assert_eq!(first, second);
    assert_eq!(observe(&game), before);
}

#[test]
fn to_coord_is_the_exact_pixel_offset() {
    assert_eq!(to_coord(0), 0);
    assert_eq!(to_coord(7), 105);
    assert_eq!(to_coord(-3), -45);
    assert_eq!(to_coord(i32::MAX), 32_212_254_705);
    assert_eq!(to_coord(i32::MIN), -32_212_254_720);
}
