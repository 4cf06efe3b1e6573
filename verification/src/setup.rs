//! What has to be in place before the first piece: a color, and the floor
//! that the blocks land on.

use crate::color::random_color;
use crate::game::{Game, GameView, HalfVector};
use vstd::prelude::*;

verus! {

/// Height of the floor slab, in blocks. Half of that height, counted in half
/// blocks, is the same number.
pub const FLOOR_BLOCK_HEIGHT: i64 = 2;

/// The floor: a static body with a box collider, to be created by the
/// engine. A static body has infinite mass and no force moves it.
#[derive(Clone, Copy, Debug, PartialEq, Eq, Structural)]
pub struct FloorRequest {
    /// Where the center of the slab lies, in half blocks.
    pub position: HalfVector,
    /// Half the width and half the height of the slab, in half blocks.
    pub half_extents: HalfVector,
}

/// A slab as wide as the board, centered below it, whose upper face is the
/// floor line.
pub open spec fn spec_floor_request(game: GameView) -> FloorRequest {
    FloorRequest {
        position: HalfVector { x: 0, y: (game.floor_y() - FLOOR_BLOCK_HEIGHT) as i64 },
        half_extents: HalfVector { x: game.n_lanes as i64, y: FLOOR_BLOCK_HEIGHT },
    }
}

/// Chooses the color of the first piece.
pub fn setup_game(game: &mut Game)
    ensures
        final(game)@.block_color matches Some(color) && color.r < 255 && color.g < 255 && color.b
            < 255 && final(game)@ == old(game)@.with_color(color),
{
    game.block_color = Some(random_color());
}

/// Plans the floor, which blocks collide with when they reach the bottom of
/// the board.
pub fn setup_board(game: &Game) -> (floor: FloorRequest)
    requires
        game@.board_fits(),
    ensures
        floor == spec_floor_request(game@),
{
    FloorRequest {
        position: HalfVector { x: 0, y: game.floor_y() - FLOOR_BLOCK_HEIGHT },
        half_extents: HalfVector { x: game.n_lanes as i64, y: FLOOR_BLOCK_HEIGHT },
    }
}

} // verus!
