use std::collections::HashSet;
use tetris_physics::assembler::{
    handles_are_distinct, plan_tetromino, set_current_tetromino, spawn_block, spawn_joints,
    spawn_tetromino, BlockRequest, JointRequest, BLOCK_DENSITY, BLOCK_HALF_EXTENT,
    BLOCK_LINEAR_DAMPING, BLOCK_MASS,
};
use tetris_physics::color::BlockColor;
use tetris_physics::game::{Game, HalfVector};
use tetris_physics::tetromino::{TetrominoKind, TetrominoLayout};

const TEAL: BlockColor = BlockColor { r: 0, g: 128, b: 128 };

fn colored_game(n_lanes: usize, n_rows: usize) -> Game {
    let mut game = Game::new(n_lanes, n_rows);
    game.block_color = Some(TEAL);
    game
}

fn joint(body_1: u64, body_2: u64, x: i64, y: i64) -> JointRequest {
    JointRequest {
        body_1,
        body_2,
        anchor_1: HalfVector { x, y },
        anchor_2: HalfVector { x: -x, y: -y },
    }
}

#[test]
fn block_constants() {
    assert_eq!(BLOCK_MASS, 1);
    assert_eq!(BLOCK_LINEAR_DAMPING, 1);
    assert!(BLOCK_LINEAR_DAMPING > 0);
    assert_eq!(BLOCK_DENSITY, 1);
    assert_eq!(BLOCK_HALF_EXTENT as f32 * 0.5, 0.5);
}

#[test]
fn spawn_block_plans_a_unit_square_of_the_piece_color() {
    let game = colored_game(10, 20);
    let request = spawn_block(&game, (0, 0));
    assert_eq!(
        request,
        BlockRequest {
            position: HalfVector { x: 1, y: 21 },
            mass: 1,
            linear_damping: 1,
            half_extents: HalfVector { x: 1, y: 1 },
            density: 1,
            color: TEAL,
        }
    );
}

#[test]
fn spawn_block_centers_the_block_on_its_cell() {
    let game = colored_game(10, 20);
    let request = spawn_block(&game, (1, -2));
    assert_eq!(request.position, HalfVector { x: 3, y: 17 });
    assert_eq!(
        request.position,
        game.board_to_physics(game.translate_to_board_center_top((1, -2)))
    );
    assert_eq!(request.position, game.board_to_physics((6, 18)));
}

#[test]
fn blocks_lie_at_their_layout_offset_from_the_first() {
    let game = colored_game(10, 20);
    let plan = plan_tetromino(&game, TetrominoKind::I);
    let anchor = plan.blocks[0].position;
    assert_eq!(anchor, game.board_to_physics(game.translate_to_board_center_top((1, 1))));
    assert_eq!(anchor, HalfVector { x: 3, y: 23 });
    for k in 0..4 {
        assert_eq!(plan.blocks[k].position, HalfVector { x: anchor.x, y: anchor.y - 2 * k as i64 });
    }
}

#[test]
fn spawn_o_on_the_default_board() {
    let game = colored_game(10, 20);
    let plan = plan_tetromino(&game, TetrominoKind::O);
    assert_eq!(plan.kind, TetrominoKind::O);
    let cells = [(5, 20), (6, 20), (6, 19), (5, 19)];
    for k in 0..4 {
        assert_eq!(plan.blocks[k].position, game.board_to_physics(cells[k]), "block {}", k);
        assert_eq!(plan.blocks[k].color, plan.blocks[0].color);
        assert_eq!(plan.blocks[k].color, TEAL);
    }
    assert_eq!(plan.blocks[0].position, HalfVector { x: 1, y: 21 });
    assert_eq!(plan.blocks[1].position, HalfVector { x: 3, y: 21 });
    assert_eq!(plan.blocks[2].position, HalfVector { x: 3, y: 19 });
    assert_eq!(plan.blocks[3].position, HalfVector { x: 1, y: 19 });

    let joints = spawn_joints(&plan.kind.layout(), &[40, 41, 42, 43]);
    assert_eq!(
        joints,
        vec![joint(40, 41, 1, 0), joint(41, 42, 0, -1), joint(42, 43, -1, 0), joint(41, 40, -1, 0)]
    );
}

#[test]
fn every_kind_is_planned_cell_by_cell() {
    let game = colored_game(8, 12);
    let kinds = [
        TetrominoKind::I,
        TetrominoKind::O,
        TetrominoKind::T,
        TetrominoKind::J,
        TetrominoKind::L,
        TetrominoKind::S,
        TetrominoKind::Z,
    ];
    for kind in kinds {
        let plan = plan_tetromino(&game, kind);
        let layout = kind.layout();
        for k in 0..4 {
            let cell = game.translate_to_board_center_top(layout.coords[k]);
            assert_eq!(plan.blocks[k].position, game.board_to_physics(cell), "{:?}", kind);
            assert_eq!(plan.blocks[k].mass, BLOCK_MASS);
            assert_eq!(plan.blocks[k].linear_damping, BLOCK_LINEAR_DAMPING);
            assert_eq!(plan.blocks[k].half_extents, HalfVector { x: 1, y: 1 });
            assert_eq!(plan.blocks[k].density, BLOCK_DENSITY);
        }
    }
}

#[test]
fn shape_does_not_depend_on_the_board() {
    let small = plan_tetromino(&colored_game(3, 1), TetrominoKind::T);
    let large = plan_tetromino(&colored_game(1000, 777), TetrominoKind::T);
    for k in 1..4 {
        assert_eq!(
            small.blocks[k].position.x - small.blocks[0].position.x,
            large.blocks[k].position.x - large.blocks[0].position.x
        );
        assert_eq!(
            small.blocks[k].position.y - small.blocks[0].position.y,
            large.blocks[k].position.y - large.blocks[0].position.y
        );
    }
    assert_eq!(small.blocks[3].position.x - small.blocks[0].position.x, 2);
    assert_eq!(small.blocks[3].position.y - small.blocks[0].position.y, -2);
}

#[test]
fn i_is_planned_above_the_top_row() {
    let game = colored_game(10, 20);
    let plan = plan_tetromino(&game, TetrominoKind::I);
    assert_eq!(plan.blocks[0].position, game.board_to_physics((6, 21)));
    assert_eq!(plan.blocks[3].position, game.board_to_physics((6, 18)));
}

#[test]
fn spawn_tetromino_plans_the_kind_it_drew() {
    let game = colored_game(10, 20);
    let mut seen = HashSet::new();
    for _ in 0..200 {
        let plan = spawn_tetromino(&game);
        let expected = plan_tetromino(&game, plan.kind);
        assert_eq!(plan.blocks, expected.blocks);
        seen.insert(format!("{:?}", plan.kind));
    }
    assert!(seen.len() > 1);
}

#[test]
fn joints_of_the_t() {
    let joints = spawn_joints(&TetrominoKind::T.layout(), &[1, 2, 3, 4]);
    assert_eq!(joints, vec![joint(1, 2, 1, 0), joint(2, 3, 1, 0), joint(2, 4, 0, -1)]);
}

#[test]
fn joints_of_the_s() {
    let joints = spawn_joints(&TetrominoKind::S.layout(), &[9, 8, 7, 6]);
    assert_eq!(joints, vec![joint(9, 8, 1, 0), joint(8, 7, 0, 1), joint(7, 6, 1, 0)]);
}

#[test]
fn joint_anchors_meet_halfway() {
    let coords = [(0, 0), (4, -6), (0, 0), (0, 0)];
    let layout = TetrominoLayout { coords, joints: vec![(0, 1), (1, 0)] };
    let joints = spawn_joints(&layout, &[5, 6, 7, 8]);
    assert_eq!(joints, vec![joint(5, 6, 4, -6), joint(6, 5, -4, 6)]);
    // Seen from the first block the anchor lies at half the offset to the second.
    assert_eq!(joints[0].anchor_1.x as f32 * 0.5, 2.0);
    assert_eq!(joints[0].anchor_1.y as f32 * 0.5, -3.0);
    assert_eq!(joints[0].anchor_2.x as f32 * 0.5, -2.0);
    assert_eq!(joints[0].anchor_2.y as f32 * 0.5, 3.0);
}

#[test]
fn joint_offsets_do_not_overflow() {
    let coords = [(i32::MIN, i32::MAX), (i32::MAX, i32::MIN), (0, 0), (0, 0)];
    let layout = TetrominoLayout { coords, joints: vec![(0, 1)] };
    let joints = spawn_joints(&layout, &[1, 2, 3, 4]);
    assert_eq!(joints, vec![joint(1, 2, 4294967295, -4294967295)]);
}

#[test]
fn layout_without_joints_gives_no_requests() {
    let layout = TetrominoLayout { coords: [(0, 0); 4], joints: vec![] };
    assert!(spawn_joints(&layout, &[1, 2, 3, 4]).is_empty());
}

#[test]
fn distinct_handles_are_told_apart() {
    assert!(handles_are_distinct(&[1, 2, 3, 4]));
    assert!(handles_are_distinct(&[0, u64::MAX, 7, 8]));
    assert!(!handles_are_distinct(&[1, 1, 3, 4]));
    assert!(!handles_are_distinct(&[1, 2, 3, 1]));
    assert!(!handles_are_distinct(&[1, 2, 2, 4]));
    assert!(!handles_are_distinct(&[1, 2, 4, 4]));
    assert!(!handles_are_distinct(&[1, 3, 3, 3]));
    assert!(!handles_are_distinct(&[1, 2, 1, 4]));
    assert!(!handles_are_distinct(&[1, 2, 3, 2]));
}

#[test]
fn set_current_tetromino_replaces_the_piece_before() {
    let mut game = colored_game(10, 20);
    set_current_tetromino(&mut game, &[1, 2, 3, 4], vec![10, 11, 12]);
    assert_eq!(game.current_tetromino_blocks, HashSet::from([1, 2, 3, 4]));
    assert_eq!(game.current_tetromino_joints, vec![10, 11, 12]);

    set_current_tetromino(&mut game, &[5, 6, 7, 8], vec![13, 14, 15, 16]);
    assert_eq!(game.current_tetromino_blocks, HashSet::from([5, 6, 7, 8]));
    assert_eq!(game.current_tetromino_blocks.len(), 4);
    assert_eq!(game.current_tetromino_joints, vec![13, 14, 15, 16]);
    assert_eq!(game.n_lanes, 10);
    assert_eq!(game.n_rows, 20);
    assert_eq!(game.block_color, Some(TEAL));
}
