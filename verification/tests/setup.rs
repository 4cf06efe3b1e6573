use tetris_physics::color::{byte_rgb, random_color, BlockColor};
use tetris_physics::game::{Game, HalfVector};
use tetris_physics::setup::{setup_board, setup_game, FloorRequest, FLOOR_BLOCK_HEIGHT};

#[test]
fn random_color_never_draws_the_brightest_value() {
    let mut reds = std::collections::HashSet::new();
    for _ in 0..5000 {
        let BlockColor { r, g, b } = random_color();
        assert!(r < 255);
        assert!(g < 255);
        assert!(b < 255);
        reds.insert(r);
    }
    assert!(reds.len() > 100);
}

#[test]
fn setup_game_chooses_a_color_and_nothing_else() {
    let mut game = Game::new(6, 9);
    game.current_tetromino_joints.push(3);
    setup_game(&mut game);
    let color = game.block_color.unwrap();
    assert!(color.r < 255 && color.g < 255 && color.b < 255);
    assert_eq!(game.n_lanes, 6);
    assert_eq!(game.n_rows, 9);
    assert!(game.current_tetromino_blocks.is_empty());
    assert_eq!(game.current_tetromino_joints, vec![3]);
}

#[test]
fn floor_of_the_default_board() {
    let floor = setup_board(&Game::default());
    assert_eq!(
        floor,
        FloorRequest {
            position: HalfVector { x: 0, y: -22 },
            half_extents: HalfVector { x: 10, y: 2 },
        }
    );
    // In blocks: a slab of 10 by 2, centered one block below the floor line.
    assert_eq!(FLOOR_BLOCK_HEIGHT, 2);
    assert_eq!(floor.position.y as f32 * 0.5, -11.0);
    assert_eq!(floor.half_extents.x as f32 * 0.5, 5.0);
    assert_eq!(floor.half_extents.y as f32 * 0.5, 1.0);
}

#[test]
fn floor_top_is_the_floor_line() {
    let game = Game::new(4, 7);
    let floor = setup_board(&game);
    assert_eq!(floor.position.y + floor.half_extents.y, game.floor_y());
    assert_eq!(floor.position.x - floor.half_extents.x, game.left_edge_x());
}

#[test]
fn readiness_needs_a_color_and_room_above_the_board() {
    let mut game = Game::default();
    assert!(!game.is_ready_to_spawn());
    setup_game(&mut game);
    assert!(game.is_ready_to_spawn());

    let mut tall = Game::new(10, i32::MAX as usize);
    setup_game(&mut tall);
    assert!(!tall.is_ready_to_spawn());
    let mut wide = Game::new(i32::MAX as usize, i32::MAX as usize - 1);
    setup_game(&mut wide);
    assert!(wide.is_ready_to_spawn());
}

#[test]
fn piece_is_active_once_it_has_a_color_and_four_bodies() {
    let mut game = Game::default();
    assert!(!game.is_piece_active());
    game.current_tetromino_blocks.extend([1, 2, 3, 4]);
    assert!(!game.is_piece_active());
    setup_game(&mut game);
    assert!(game.is_piece_active());
    game.current_tetromino_blocks.insert(5);
    assert!(!game.is_piece_active());
    game.current_tetromino_blocks.clear();
    assert!(!game.is_piece_active());
}

#[test]
fn byte_rgb_keeps_each_channel_in_its_place() {
    assert_eq!(byte_rgb(1, 2, 3), BlockColor { r: 1, g: 2, b: 3 });
    assert_eq!(byte_rgb(255, 0, 128), BlockColor { r: 255, g: 0, b: 128 });
}
