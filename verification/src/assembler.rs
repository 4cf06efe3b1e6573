//! Assembling a piece: which bodies and joints the physics engine is asked
//! to create for a shape, and the bookkeeping once it has created them.
//!
//! The engine is outside of the library. A piece is assembled in three steps:
//! [`spawn_tetromino`] plans the four bodies, [`spawn_joints`] plans the
//! joints between the bodies that the engine has created, and
//! [`set_current_tetromino`] records the handles of both as the active piece.

use crate::color::BlockColor;
use crate::game::{Game, GameView, HalfVector, Handle};
use crate::tetromino::{
    joint_is_valid, lemma_blocks_are_distinct, IVector, LayoutView, TetrominoKind, TetrominoLayout,
};
use std::collections::HashSet;
use vstd::prelude::*;
use vstd::seq_lib::seq_to_set_is_finite;

verus! {

broadcast use vstd::std_specs::hash::group_hash_axioms;

/// Mass of a block.
pub const BLOCK_MASS: u32 = 1;

/// Linear damping of a block. It is positive, so that a piece does not drift
/// forever and comes to rest.
pub const BLOCK_LINEAR_DAMPING: u32 = 1;

/// Density of a block's collider.
pub const BLOCK_DENSITY: u32 = 1;

/// Half the side of a block, in half blocks.
pub const BLOCK_HALF_EXTENT: i64 = 1;

/// A dynamic rigid body with a square collider, to be created by the engine.
#[derive(Clone, Copy, Debug, PartialEq, Eq, Structural)]
pub struct BlockRequest {
    /// Where the center of the body lies, in half blocks.
    pub position: HalfVector,
    pub mass: u32,
    pub linear_damping: u32,
    /// Half the width and half the height of the collider, in half blocks.
    pub half_extents: HalfVector,
    pub density: u32,
    pub color: BlockColor,
}

/// A ball joint between two bodies, to be created by the engine. It pins
/// `anchor_1`, a point relative to the first body's center, to `anchor_2`, a
/// point relative to the second body's center, and leaves the bodies free to
/// rotate about that point.
#[derive(Clone, Copy, Debug, PartialEq, Eq, Structural)]
pub struct JointRequest {
    pub body_1: Handle,
    pub body_2: Handle,
    /// In half blocks.
    pub anchor_1: HalfVector,
    /// In half blocks.
    pub anchor_2: HalfVector,
}

/// The bodies to create for a new piece.
pub struct SpawnPlan {
    pub kind: TetrominoKind,
    /// One request per block, in the order of the layout's coordinates.
    pub blocks: [BlockRequest; 4],
}

/// The body for the block at tetromino coordinate `local`: a unit square of
/// the piece's color, centered on the cell that `local` is translated to.
pub open spec fn spec_block_request(game: GameView, local: IVector) -> BlockRequest {
    let position = game.spawn_position(local);
    BlockRequest {
        position: HalfVector { x: position.0 as i64, y: position.1 as i64 },
        mass: BLOCK_MASS,
        linear_damping: BLOCK_LINEAR_DAMPING,
        half_extents: HalfVector { x: BLOCK_HALF_EXTENT, y: BLOCK_HALF_EXTENT },
        density: BLOCK_DENSITY,
        color: game.block_color->0,
    }
}

/// The bodies of a piece of the given kind, block by block.
pub open spec fn spec_block_requests(game: GameView, kind: TetrominoKind) -> Seq<BlockRequest> {
    Seq::new(4, |k: int| spec_block_request(game, kind.coords()[k]))
}

/// The joint for the index pair `joint`, between the bodies `blocks` of a
/// piece with the given coordinates. Each anchor lies halfway between the
/// centers of the two blocks: half the offset from the first block to
/// the second, seen from the first, and the opposite, seen from the second.
pub open spec fn spec_joint_request(
    coords: Seq<IVector>,
    joint: (usize, usize),
    blocks: Seq<Handle>,
) -> JointRequest {
    let x_dir = coords[joint.1 as int].0 - coords[joint.0 as int].0;
    let y_dir = coords[joint.1 as int].1 - coords[joint.0 as int].1;
    JointRequest {
        body_1: blocks[joint.0 as int],
        body_2: blocks[joint.1 as int],
        anchor_1: HalfVector { x: x_dir as i64, y: y_dir as i64 },
        anchor_2: HalfVector { x: (-x_dir) as i64, y: (-y_dir) as i64 },
    }
}

/// The joints of a layout, in the layout's order.
pub open spec fn spec_joint_requests(layout: LayoutView, blocks: Seq<Handle>) -> Seq<
    JointRequest,
> {
    Seq::new(
        layout.joints.len(),
        |p: int| spec_joint_request(layout.coords, layout.joints[p], blocks),
    )
}

/// The blocks of a piece are planned on four different cells, and all in the
/// color that the context holds.
pub proof fn lemma_blocks_do_not_overlap(game: GameView, kind: TetrominoKind, j: int, k: int)
    requires
        game.ready_to_spawn(),
        0 <= j < k < 4,
    ensures
        spec_block_requests(game, kind)[j].position != spec_block_requests(game, kind)[k].position,
        spec_block_requests(game, kind)[j].color == game.block_color->0,
        spec_block_requests(game, kind)[k].color == game.block_color->0,
{
    lemma_blocks_are_distinct(kind, j, k);
    lemma_catalog_coords_are_small(kind, j);
    lemma_catalog_coords_are_small(kind, k);
}

/// The coordinates of the catalog stay within two steps of the origin.
proof fn lemma_catalog_coords_are_small(kind: TetrominoKind, k: int)
    requires
        0 <= k < 4,
    ensures
        -2 <= kind.coords()[k].0 <= 2,
        -2 <= kind.coords()[k].1 <= 2,
{
}

/// A joint holds without strain at the positions where the blocks are
/// planned: its two anchors, each taken from the center of its own block,
/// are the same point.
pub proof fn lemma_joint_holds_at_spawn(
    game: GameView,
    layout: LayoutView,
    joint: (usize, usize),
    blocks: Seq<Handle>,
)
    requires
        layout.coords.len() == 4,
        joint_is_valid(joint),
    ensures
        ({
            let request = spec_joint_request(layout.coords, joint, blocks);
            let first = game.spawn_position(layout.coords[joint.0 as int]);
            let second = game.spawn_position(layout.coords[joint.1 as int]);
            &&& first.0 + request.anchor_1.x == second.0 + request.anchor_2.x
            &&& first.1 + request.anchor_1.y == second.1 + request.anchor_2.y
            &&& request.body_1 == blocks[joint.0 as int]
            &&& request.body_2 == blocks[joint.1 as int]
        }),
{
}

/// Plans the body of the block at the given tetromino coordinate.
pub fn spawn_block(game: &Game, tetromino_coord: IVector) -> (request: BlockRequest)
    requires
        game@.board_fits(),
        game@.block_color is Some,
        game@.translate_to_board_center_top(tetromino_coord).0 <= i32::MAX,
        game@.translate_to_board_center_top(tetromino_coord).1 <= i32::MAX,
    ensures
        request == spec_block_request(game@, tetromino_coord),
{
    BlockRequest {
        position: game.board_to_physics(game.translate_to_board_center_top(tetromino_coord)),
        mass: BLOCK_MASS,
        linear_damping: BLOCK_LINEAR_DAMPING,
        half_extents: HalfVector { x: BLOCK_HALF_EXTENT, y: BLOCK_HALF_EXTENT },
        density: BLOCK_DENSITY,
        color: game.block_color.unwrap(),
    }
}

/// Plans the four bodies of a piece of the given kind. The layout's first
/// block anchors the piece: every other block lies at its layout offset from
/// there, so the piece has its shape on every board.
pub fn plan_tetromino(game: &Game, kind: TetrominoKind) -> (plan: SpawnPlan)
    requires
        game@.ready_to_spawn(),
    ensures
        plan.kind == kind,
        plan.blocks@ == spec_block_requests(game@, kind),
        forall|k: int|
            0 <= k < 4 ==> {
                let anchor = plan.blocks@[0].position;
                let offset = (
                    kind.coords()[k].0 - kind.coords()[0].0,
                    kind.coords()[k].1 - kind.coords()[0].1,
                );
                &&& (#[trigger] plan.blocks@[k]).position.x == anchor.x + 2 * offset.0
                &&& plan.blocks@[k].position.y == anchor.y + 2 * offset.1
            },
{
    let layout = kind.layout();
    let blocks = [
        spawn_block(game, layout.coords[0]),
        spawn_block(game, layout.coords[1]),
        spawn_block(game, layout.coords[2]),
        spawn_block(game, layout.coords[3]),
    ];
    SpawnPlan { kind, blocks }
}

/// Plans the bodies of a piece of a randomly chosen kind.
pub fn spawn_tetromino(game: &Game) -> (plan: SpawnPlan)
    requires
        game@.ready_to_spawn(),
    ensures
        plan.blocks@ == spec_block_requests(game@, plan.kind),
{
    plan_tetromino(game, TetrominoKind::random())
}

/// Plans the joints of a piece whose blocks the engine has created as the
/// bodies `blocks`, given in the order of the layout's coordinates.
pub fn spawn_joints(layout: &TetrominoLayout, blocks: &[Handle; 4]) -> (requests: Vec<
    JointRequest,
>)
    requires
        layout@.wf(),
    ensures
        requests@ == spec_joint_requests(layout@, blocks@),
{
    let mut requests: Vec<JointRequest> = Vec::new();
    let mut p: usize = 0;
    while p < layout.joints.len()
        invariant
            layout@.wf(),
            p <= layout.joints@.len(),
            requests@.len() == p,
            forall|q: int|
                0 <= q < p ==> requests@[q] == spec_joint_request(
                    layout.coords@,
                    layout.joints@[q],
                    blocks@,
                ),
        decreases layout.joints@.len() - p,
    {
        assert(joint_is_valid(layout@.joints[p as int]));
        let (i, j) = layout.joints[p];
        let x_dir: i64 = layout.coords[j].0 as i64 - layout.coords[i].0 as i64;
        let y_dir: i64 = layout.coords[j].1 as i64 - layout.coords[i].1 as i64;
        requests.push(
            JointRequest {
                body_1: blocks[i],
                body_2: blocks[j],
                anchor_1: HalfVector { x: x_dir, y: y_dir },
                anchor_2: HalfVector { x: -x_dir, y: -y_dir },
            },
        );
        p = p + 1;
    }
    requests
}

/// Whether the four handles name four different bodies.
pub fn handles_are_distinct(blocks: &[Handle; 4]) -> (distinct: bool)
    ensures
        distinct == blocks@.no_duplicates(),
{
    let distinct = blocks[0] != blocks[1] && blocks[0] != blocks[2] && blocks[0] != blocks[3]
        && blocks[1] != blocks[2] && blocks[1] != blocks[3] && blocks[2] != blocks[3];
    proof {
        if !distinct {
            let (i, j) = choose|i: int, j: int|
                0 <= i < j < 4 && blocks@[i] == blocks@[j];
            assert(blocks@[i] == blocks@[j]);
        }
    }
    distinct
}

/// Records a newly assembled piece as the active one: its bodies and joints
/// take the place of those of the piece before.
pub fn set_current_tetromino(game: &mut Game, blocks: &[Handle; 4], joints: Vec<Handle>)
    requires
        blocks@.no_duplicates(),
    ensures
        final(game)@ == old(game)@.with_piece(blocks@.to_set(), joints@),
        final(game)@.blocks.finite(),
        final(game)@.blocks.len() == 4,
{
    let mut set: HashSet<Handle> = HashSet::new();
    set.insert(blocks[0]);
    set.insert(blocks[1]);
    set.insert(blocks[2]);
    set.insert(blocks[3]);
    proof {
        assert(set@ =~= blocks@.to_set());
        blocks@.unique_seq_to_set();
        seq_to_set_is_finite(blocks@);
    }
    game.current_tetromino_blocks = set;
    game.current_tetromino_joints = joints;
}

} // verus!
