//! The simulation context: the board's dimensions, the active piece, and the
//! transforms between the three coordinate systems.
//!
//! All three systems have their Y axis pointing upwards.
//!
//! 1. Tetromino coordinates ([`IVector`]): offsets from a shape's reference
//!    block.
//! 2. Board coordinates ([`IVector`]): the left-most bottom cell is the origin.
//! 3. Physics coordinates ([`HalfVector`]): one block measures 1 by 1, and the
//!    origin is the center of the board. Every position that the library
//!    computes is a multiple of half a block, so physics quantities are
//!    counted in half blocks and stay exact integers: the number `h` stands
//!    for `h / 2` blocks.

use crate::color::BlockColor;
use crate::tetromino::IVector;
use std::collections::HashSet;
use vstd::prelude::*;
use vstd::seq_lib::seq_to_set_is_finite;
use vstd::std_specs::hash::spec_hash_keys_iter;
use vstd::std_specs::iter::IteratorSpec;

verus! {

broadcast use vstd::std_specs::hash::group_hash_axioms;

/// A physics-space position, offset or extent, counted in half blocks.
#[derive(Clone, Copy, Debug, PartialEq, Eq, Structural)]
pub struct HalfVector {
    pub x: i64,
    pub y: i64,
}

/// The handle under which the physics engine knows a body or a joint.
pub type Handle = u64;

/// Number of lanes of the default board.
pub const N_LANES: usize = 10;

/// Number of rows of the default board.
pub const N_ROWS: usize = 20;

/// The state of one simulation.
pub struct Game {
    /// Width of the board, in cells.
    pub n_lanes: usize,
    /// Height of the board, in cells.
    pub n_rows: usize,
    /// The color of the piece that is active or about to be assembled.
    pub block_color: Option<BlockColor>,
    /// The bodies of the active piece.
    pub current_tetromino_blocks: HashSet<Handle>,
    /// The joints that hold the active piece together.
    pub current_tetromino_joints: Vec<Handle>,
}

/// What a [`Game`] stands for: the board, the color in use, and the active
/// piece as the set of its bodies and the list of its joints.
pub struct GameView {
    pub n_lanes: nat,
    pub n_rows: nat,
    pub block_color: Option<BlockColor>,
    pub blocks: Set<Handle>,
    pub joints: Seq<Handle>,
}

impl View for Game {
    type V = GameView;

    open spec fn view(&self) -> GameView {
        GameView {
            n_lanes: self.n_lanes as nat,
            n_rows: self.n_rows as nat,
            block_color: self.block_color,
            blocks: self.current_tetromino_blocks@,
            joints: self.current_tetromino_joints@,
        }
    }
}

impl GameView {
    /// A context for a board of the given size, with no piece and no color.
    pub open spec fn empty(n_lanes: nat, n_rows: nat) -> GameView {
        GameView {
            n_lanes,
            n_rows,
            block_color: None,
            blocks: Set::empty(),
            joints: Seq::empty(),
        }
    }

    /// The board is small enough for its dimensions to be board coordinates.
    pub open spec fn board_fits(self) -> bool {
        self.n_lanes <= i32::MAX && self.n_rows <= i32::MAX
    }

    /// A color is chosen and the board leaves room above its top row for
    /// every shape of the catalog: a new piece can be planned.
    pub open spec fn ready_to_spawn(self) -> bool {
        self.n_lanes <= i32::MAX && self.n_rows < i32::MAX && self.block_color is Some
    }

    /// A piece is under the player's control: it has a color and four bodies.
    pub open spec fn has_active_piece(self) -> bool {
        self.block_color is Some && self.blocks.finite() && self.blocks.len() == 4
    }

    /// The y position of the floor, in half blocks: half the board lies below
    /// the origin.
    pub open spec fn floor_y(self) -> int {
        -(self.n_rows as int)
    }

    /// The x position of the left edge of the board, in half blocks.
    pub open spec fn left_edge_x(self) -> int {
        -(self.n_lanes as int)
    }

    /// The board cell in which a tetromino coordinate comes to lie when the
    /// piece is centered horizontally and stacked on top of the board.
    pub open spec fn translate_to_board_center_top(self, local: IVector) -> (int, int) {
        (local.0 + self.n_lanes as int / 2, local.1 + self.n_rows as int)
    }

    /// The physics position, in half blocks, of the center of a board cell.
    pub open spec fn board_to_physics(self, board: (int, int)) -> (int, int) {
        (self.left_edge_x() + 2 * board.0 + 1, self.floor_y() + 2 * board.1 + 1)
    }

    /// The physics position, in half blocks, at which a tetromino coordinate
    /// materializes.
    pub open spec fn spawn_position(self, local: IVector) -> (int, int) {
        self.board_to_physics(self.translate_to_board_center_top(local))
    }

    /// The same context with `color` chosen for the next piece.
    pub open spec fn with_color(self, color: BlockColor) -> GameView {
        GameView { block_color: Some(color), ..self }
    }

    /// The same context with the given bodies and joints as the active piece.
    pub open spec fn with_piece(self, blocks: Set<Handle>, joints: Seq<Handle>) -> GameView {
        GameView { blocks, joints, ..self }
    }

    /// The context right after the active piece has settled: no body and no
    /// joint is held until the next piece is assembled, and `color` is chosen
    /// for that piece.
    pub open spec fn settled(self, color: BlockColor) -> GameView {
        GameView { block_color: Some(color), blocks: Set::empty(), joints: Seq::empty(), ..self }
    }
}

impl Game {
    /// A context for a board of the given size, with no piece and no color yet.
    pub fn new(n_lanes: usize, n_rows: usize) -> (game: Game)
        ensures
            game@ == GameView::empty(n_lanes as nat, n_rows as nat),
    {
        Game {
            n_lanes,
            n_rows,
            block_color: None,
            current_tetromino_blocks: HashSet::new(),
            current_tetromino_joints: Vec::new(),
        }
    }

    /// Tells whether a new piece can be planned.
    pub fn is_ready_to_spawn(&self) -> (ready: bool)
        ensures
            ready == self@.ready_to_spawn(),
    {
        self.n_lanes <= i32::MAX as usize && self.n_rows < i32::MAX as usize
            && self.block_color.is_some()
    }

    /// Tells whether a piece is under the player's control.
    pub fn is_piece_active(&self) -> (active: bool)
        ensures
            active == self@.has_active_piece(),
    {
        proof {
            lemma_handle_set_is_finite(&self.current_tetromino_blocks);
        }
        self.block_color.is_some() && self.current_tetromino_blocks.len() == 4
    }

    /// The y position of the floor, in half blocks.
    pub fn floor_y(&self) -> (y: i64)
        requires
            self@.board_fits(),
        ensures
            y == self@.floor_y(),
    {
        -(self.n_rows as i64)
    }

    /// The x position of the left edge of the board, in half blocks.
    pub fn left_edge_x(&self) -> (x: i64)
        requires
            self@.board_fits(),
        ensures
            x == self@.left_edge_x(),
    {
        -(self.n_lanes as i64)
    }

    /// Translates a tetromino coordinate to the center of the board, on top
    /// of the topmost row, where tetrominoes spawn.
    pub fn translate_to_board_center_top(&self, local: IVector) -> (board: IVector)
        requires
            self@.translate_to_board_center_top(local).0 <= i32::MAX,
            self@.translate_to_board_center_top(local).1 <= i32::MAX,
        ensures
            (board.0 as int, board.1 as int) == self@.translate_to_board_center_top(local),
    {
        let x: i64 = local.0 as i64 + (self.n_lanes / 2) as i64;
        let y: i64 = local.1 as i64 + self.n_rows as i64;
        (x as i32, y as i32)
    }

    /// Translates from board coordinates to physics coordinates: the center
    /// of the cell, which is where the collider of a block in that cell sits.
    pub fn board_to_physics(&self, board: IVector) -> (position: HalfVector)
        requires
            self@.board_fits(),
        ensures
            (position.x as int, position.y as int) == self@.board_to_physics(
                (board.0 as int, board.1 as int),
            ),
    {
        let x: i64 = self.left_edge_x() + 2 * (board.0 as i64) + 1;
        let y: i64 = self.floor_y() + 2 * (board.1 as i64) + 1;
        HalfVector { x, y }
    }
}

impl Default for Game {
    /// The default board: 10 lanes by 20 rows, nothing assembled.
    fn default() -> (game: Game)
        ensures
            game@ == GameView::empty(N_LANES as nat, N_ROWS as nat),
    {
        Game::new(N_LANES, N_ROWS)
    }
}

/// A hash set holds finitely many handles: they can be listed one by one.
proof fn lemma_handle_set_is_finite(handles: &HashSet<Handle>)
    ensures
        handles@.finite(),
{
    let listed = spec_hash_keys_iter(handles).remaining().unref();
    assert(listed.to_set() == handles@);
    seq_to_set_is_finite(listed);
}

/// The transform looks at the board's dimensions only: two contexts with the
/// same board send a tetromino coordinate to the same cell and to the same
/// physics position, whatever else they hold.
pub proof fn lemma_transform_depends_on_board_only(a: GameView, b: GameView, local: IVector)
    requires
        a.n_lanes == b.n_lanes,
        a.n_rows == b.n_rows,
    ensures
        a.translate_to_board_center_top(local) == b.translate_to_board_center_top(local),
        a.spawn_position(local) == b.spawn_position(local),
{
}

/// The transform keeps the shape of a piece on every board: two tetromino
/// coordinates end up exactly as many blocks apart as they are in the layout.
pub proof fn lemma_transform_preserves_offsets(game: GameView, anchor: IVector, local: IVector)
    ensures
        game.spawn_position(local).0 - game.spawn_position(anchor).0 == 2 * (local.0 - anchor.0),
        game.spawn_position(local).1 - game.spawn_position(anchor).1 == 2 * (local.1 - anchor.1),
{
}

/// Cells of the board are one block apart, and the cell at the bottom left
/// sits half a block inside the left edge and above the floor.
pub proof fn lemma_cells_are_unit_squares(game: GameView, column: int, row: int)
    ensures
        game.board_to_physics((0, 0)) == (game.left_edge_x() + 1, game.floor_y() + 1),
        game.board_to_physics((column + 1, row)).0 == game.board_to_physics((column, row)).0 + 2,
        game.board_to_physics((column, row + 1)).1 == game.board_to_physics((column, row)).1 + 2,
{
}

} // verus!
