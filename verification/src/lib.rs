//! Falling tetrominoes as jointed rigid bodies.
//!
//! A piece is four blocks, each a rigid body of its own, held together by
//! ball joints. The player pushes the piece sideways while it falls; once all
//! of its blocks have come to rest the joints are released, the blocks stay
//! where they are, and the next piece appears above the board.
//!
//! The physics engine, the input devices and the renderer are outside of this
//! library. What is here are the decisions, from plain values to plain
//! values:
//!
//! - [`tetromino`]: the catalog of the seven shapes and their joints;
//! - [`game`]: the simulation context and the coordinate transforms;
//! - [`setup`]: the first color and the floor;
//! - [`assembler`]: the bodies and joints to create for a piece;
//! - [`movement`]: the forces that the pressed keys put on the active piece;
//! - [`settling`]: when a piece settles, and what happens then;
//! - [`color`]: the color that the blocks of a piece share.
//!
//! A host runs the engine and the schedule. It hands the library what it
//! observed (the pressed keys, the bodies at rest, the handles of what it
//! created) and carries out what the library requests.
//!
//! Physics quantities are exact: every position and extent is a whole number
//! of half blocks (see [`game::HalfVector`]).

pub mod assembler;
mod chance;
pub mod color;
pub mod game;
pub mod movement;
pub mod settling;
pub mod setup;
pub mod tetromino;
