//! The settling detector: a piece stays under the player's control until all
//! of its blocks are at rest in the same tick. Then its joints are released
//! and the next piece is planned.

use crate::assembler::{plan_tetromino, spec_block_requests, SpawnPlan};
use crate::color::{random_color, BlockColor};
use crate::game::{Game, GameView, Handle};
use crate::movement::{spec_force_request, spec_lateral_intent};
use crate::tetromino::TetrominoKind;
use std::collections::HashSet;
use vstd::prelude::*;
use vstd::seq_lib::seq_to_set_is_finite;
use vstd::std_specs::hash::spec_hash_keys_iter;
use vstd::std_specs::iter::IteratorSpec;

verus! {

broadcast use vstd::std_specs::hash::group_hash_axioms;

/// What the detector found in one tick.
pub enum Settling {
    /// Some block of the piece is not at rest: nothing changes.
    Active,
    /// The piece has come to rest. The engine is to destroy the joints
    /// `released_joints` and to create the bodies of `plan`; the blocks of
    /// the settled piece stay in the world.
    Settled { released_joints: Vec<Handle>, plan: SpawnPlan },
}

/// Every block of the active piece is among the bodies `sleeping`.
pub open spec fn spec_all_blocks_sleeping(game: GameView, sleeping: Set<Handle>) -> bool {
    game.blocks.subset_of(sleeping)
}

/// Tells whether all blocks of the active piece are at rest, given the
/// bodies that the engine reports as sleeping. A block that the engine does
/// not report counts as moving.
pub fn all_blocks_sleeping(game: &Game, sleeping: &HashSet<Handle>) -> (all: bool)
    ensures
        all == spec_all_blocks_sleeping(game@, sleeping@),
{
    let ghost keys = spec_hash_keys_iter(&game.current_tetromino_blocks).remaining().unref();
    let mut all: bool = true;
    for entity in it: game.current_tetromino_blocks.iter()
        invariant
            it.seq().unref() == keys,
            all == (forall|k: int| 0 <= k < it.index() ==> sleeping@.contains(#[trigger] keys[k])),
    {
        assert(*entity == keys[it.index()]);
        if !sleeping.contains(entity) {
            all = false;
        }
    }
    proof {
        let blocks = game.current_tetromino_blocks@;
        assert(keys.to_set() == blocks);
        if all {
            assert forall|body: Handle| blocks.contains(body) implies sleeping@.contains(body) by {
                let k = choose|k: int| 0 <= k < keys.len() && keys[k] == body;
                assert(sleeping@.contains(keys[k]));
            }
        } else {
            let k = choose|k: int| 0 <= k < keys.len() && !sleeping@.contains(#[trigger] keys[k]);
            assert(blocks.contains(keys[k]));
        }
    }
    all
}

/// Settles the active piece: hands out its joints for destruction, lets go
/// of its blocks, takes `color` for the next piece and plans that piece, of
/// the given kind.
pub fn settle(game: &mut Game, color: BlockColor, kind: TetrominoKind) -> (outcome: (
    Vec<Handle>,
    SpawnPlan,
))
    requires
        old(game)@.has_active_piece(),
        old(game)@.ready_to_spawn(),
    ensures
        outcome.0@ == old(game)@.joints,
        final(game)@ == old(game)@.settled(color),
        outcome.1.kind == kind,
        outcome.1.blocks@ == spec_block_requests(final(game)@, kind),
{
    let mut released_joints: Vec<Handle> = Vec::new();
    core::mem::swap(&mut released_joints, &mut game.current_tetromino_joints);
    game.current_tetromino_blocks = HashSet::new();
    game.block_color = Some(color);
    let plan = plan_tetromino(game, kind);
    (released_joints, plan)
}

/// Runs the detector for one tick, given the bodies that the engine reports
/// as sleeping. The piece settles exactly when all of its blocks are among
/// them; the color and the kind of the next piece are then drawn at random.
pub fn tetromino_sleep_detection(game: &mut Game, sleeping: &HashSet<Handle>) -> (outcome:
    Settling)
    requires
        old(game)@.has_active_piece(),
        old(game)@.ready_to_spawn(),
    ensures
        match outcome {
            Settling::Active => {
                &&& !spec_all_blocks_sleeping(old(game)@, sleeping@)
                &&& final(game)@ == old(game)@
            },
            Settling::Settled { released_joints, plan } => {
                &&& spec_all_blocks_sleeping(old(game)@, sleeping@)
                &&& released_joints@ == old(game)@.joints
                &&& final(game)@.block_color matches Some(color)
                &&& color.r < 255 && color.g < 255 && color.b < 255
                &&& final(game)@ == old(game)@.settled(color)
                &&& plan.blocks@ == spec_block_requests(final(game)@, plan.kind)
            },
        },
{
    if all_blocks_sleeping(game, sleeping) {
        let color = random_color();
        let kind = TetrominoKind::random();
        let (released_joints, plan) = settle(game, color, kind);
        Settling::Settled { released_joints, plan }
    } else {
        Settling::Active
    }
}

/// One piece at a time. While the next piece is being assembled no piece is
/// active, so neither the movement controller nor the detector can run on a
/// half-built piece, and no joint is held that could be released a second
/// time; the context stays ready for planning throughout, and once the four
/// bodies of the next piece are recorded, that piece is active.
pub proof fn lemma_one_piece_at_a_time(
    game: GameView,
    color: BlockColor,
    blocks: Seq<Handle>,
    joints: Seq<Handle>,
)
    requires
        game.ready_to_spawn(),
        blocks.len() == 4,
        blocks.no_duplicates(),
    ensures
        !game.settled(color).has_active_piece(),
        game.settled(color).joints.len() == 0,
        game.settled(color).ready_to_spawn(),
        game.settled(color).with_piece(blocks.to_set(), joints).has_active_piece(),
        game.settled(color).with_piece(blocks.to_set(), joints).ready_to_spawn(),
{
    blocks.unique_seq_to_set();
    seq_to_set_is_finite(blocks);
}

/// Partial rest keeps a piece active: as long as the engine reports one
/// block of the piece as moving, the piece does not settle.
pub proof fn lemma_partial_rest_stays_active(game: GameView, sleeping: Set<Handle>, body: Handle)
    requires
        game.blocks.contains(body),
        !sleeping.contains(body),
    ensures
        !spec_all_blocks_sleeping(game, sleeping),
{
}

/// Pushing alone never settles a piece. The verdict of the detector depends
/// on the blocks of the piece and on the engine's report only, so a piece
/// with a moving block stays active whatever keys are pressed, and the force
/// that the keys put on a block asks the engine to wake the block up, never
/// to put it to rest.
pub proof fn lemma_movement_does_not_settle(
    game: GameView,
    sleeping: Set<Handle>,
    body: Handle,
    left: bool,
    right: bool,
)
    requires
        game.blocks.contains(body),
        !sleeping.contains(body),
    ensures
        !spec_all_blocks_sleeping(game, sleeping),
        spec_force_request(body, spec_lateral_intent(left, right)).wake_up,
{
}

} // verus!
