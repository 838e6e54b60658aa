//! The vertex layout of this renderer.

use vstd::prelude::*;

verus! {

/// One vertex of a frame.
///
/// Coordinates are carried as the IEEE-754 bit patterns of the
/// single-precision numbers that the tessellator computed: the library moves
/// them and never calculates with them. The colour keeps its four 8-bit
/// channels in the order red, green, blue, alpha; whoever hands the vertex to
/// the graphics device divides each channel by 255.
#[derive(Clone, Copy, Debug, Default, PartialEq, Eq)]
pub struct Vertex {
    /// Position in points: x, then y.
    pub pos: [u32; 2],
    /// Texture coordinate: u, then v.
    pub uv: [u32; 2],
    /// Colour channels, each from 0 to 255.
    pub color: [u8; 4],
}

} // verus!
