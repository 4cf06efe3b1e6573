//! The movement controller: which forces the player's input puts on the
//! active piece in one tick.

use crate::game::{Game, Handle};
use vstd::prelude::*;
use vstd::std_specs::hash::spec_hash_keys_iter;
use vstd::std_specs::iter::IteratorSpec;

verus! {

broadcast use vstd::std_specs::hash::group_hash_axioms;

/// Magnitude of the force that moves a block sideways.
pub const MOVEMENT_FORCE: i32 = 20;

/// A force to apply to one body for the current tick.
#[derive(Clone, Copy, Debug, PartialEq, Eq, Structural)]
pub struct ForceRequest {
    pub body: Handle,
    /// Horizontal component; positive to the right.
    pub x: i32,
    /// Vertical component.
    pub y: i32,
    /// Whether the engine wakes the body up if it is at rest.
    pub wake_up: bool,
}

/// The direction that the pressed keys ask for: -1 to the left, +1 to the
/// right, 0 when neither key or both are pressed.
pub open spec fn spec_lateral_intent(left: bool, right: bool) -> int {
    (if right { 1int } else { 0int }) - (if left { 1int } else { 0int })
}

/// The force that moves the body `body` in the direction `movement`.
pub open spec fn spec_force_request(body: Handle, movement: int) -> ForceRequest {
    ForceRequest { body, x: (movement * MOVEMENT_FORCE) as i32, y: 0, wake_up: true }
}

/// The bodies that the requests are addressed to, request by request.
pub open spec fn spec_targets(forces: Seq<ForceRequest>) -> Seq<Handle> {
    Seq::new(forces.len(), |k: int| forces[k].body)
}

/// Reads the direction off the two keys.
pub fn lateral_intent(left: bool, right: bool) -> (movement: i8)
    ensures
        movement == spec_lateral_intent(left, right),
{
    let towards_right: i8 = if right { 1 } else { 0 };
    let towards_left: i8 = if left { 1 } else { 0 };
    towards_right - towards_left
}

/// Decides the forces of one tick. While the keys ask for a direction, every
/// block of the active piece is pushed that way with the same force, so that
/// the piece moves as a unit; otherwise no force is applied. Bodies that do
/// not belong to the active piece are never pushed, and a push never puts a
/// body to rest: each request wakes its body up.
pub fn tetromino_movement(game: &Game, left: bool, right: bool) -> (forces: Vec<ForceRequest>)
    requires
        game@.has_active_piece(),
    ensures
        spec_lateral_intent(left, right) == 0 ==> forces@.len() == 0,
        spec_lateral_intent(left, right) != 0 ==> {
            &&& spec_targets(forces@).to_set() == game@.blocks
            &&& spec_targets(forces@).no_duplicates()
            &&& forces@.len() == 4
        },
        forall|k: int|
            0 <= k < forces@.len() ==> #[trigger] forces@[k] == spec_force_request(
                forces@[k].body,
                spec_lateral_intent(left, right),
            ),
{
    let movement: i8 = lateral_intent(left, right);
    let mut forces: Vec<ForceRequest> = Vec::new();
    if movement != 0 {
        let ghost keys = spec_hash_keys_iter(&game.current_tetromino_blocks).remaining().unref();
        for entity in it: game.current_tetromino_blocks.iter()
            invariant
                -1 <= movement <= 1,
                movement == spec_lateral_intent(left, right),
                it.seq().unref() == keys,
                forces@.len() == it.index(),
                forall|k: int|
                    0 <= k < forces@.len() ==> #[trigger] forces@[k] == spec_force_request(
                        keys[k],
                        movement as int,
                    ),
        {
            assert(*entity == keys[it.index()]);
            forces.push(
                ForceRequest {
                    body: *entity,
                    x: movement as i32 * MOVEMENT_FORCE,
                    y: 0,
                    wake_up: true,
                },
            );
        }
        proof {
            assert(spec_targets(forces@) =~= keys);
        }
    }
    forces
}

} // verus!
