//! The color that all blocks of one piece share.

use crate::chance::uniform_inclusive;
use vstd::prelude::*;

verus! {

/// A color by its red, green and blue bytes.
#[derive(Clone, Copy, Debug, PartialEq, Eq, Structural)]
pub struct BlockColor {
    pub r: u8,
    pub g: u8,
    pub b: u8,
}

/// Draws a color, each channel uniformly from `0..255`: the brightest value
/// of a channel is never drawn.
pub fn random_color() -> (color: BlockColor)
    ensures
        color.r < 255,
        color.g < 255,
        color.b < 255,
{
    let r: u8 = uniform_inclusive(0, 254);
    let g: u8 = uniform_inclusive(0, 254);
    let b: u8 = uniform_inclusive(0, 254);
    byte_rgb(r, g, b)
}

/// The color with the given red, green and blue bytes.
pub fn byte_rgb(r: u8, g: u8, b: u8) -> (color: BlockColor)
    ensures
        color == (BlockColor { r, g, b }),
{
    BlockColor { r, g, b }
}

} // verus!
