//! Reading the clipped meshes that epaint's tessellator produces.
//!
//! A clipped mesh holds floating-point coordinates, so the library keeps it
//! opaque and speaks of it through `mesh_view`. The functions at the end of
//! this file are the only ones that look inside one; nothing is proved of
//! their bodies.

use vstd::prelude::*;
use epaint::ClippedMesh;
use epaint::emath::Rect;
use crate::vertex::Vertex;

verus! {

/// epaint's pair of a clip rectangle and a triangle mesh.
#[verifier::external_type_specification]
#[verifier::external_body]
pub struct ExClippedMesh(epaint::ClippedMesh);

/// emath's axis-aligned rectangle, in points.
#[verifier::external_type_specification]
#[verifier::external_body]
pub struct ExRect(epaint::emath::Rect);

/// A scissor region in pixels.
#[derive(Clone, Copy, Debug, PartialEq, Eq)]
pub struct Scissor {
    /// The corner with the smallest coordinates: x, then y.
    pub origin: [i32; 2],
    /// Width, then height.
    pub dimensions: [u32; 2],
}

/// What a clipped mesh holds, as the library reads it.
pub struct MeshView {
    /// The clip rectangle.
    pub clip: Rect,
    /// The vertices, each converted to the library's layout.
    pub vertices: Seq<Vertex>,
    /// The indices, which count from the mesh's own first vertex.
    pub indices: Seq<u32>,
}

impl MeshView {
    /// A mesh is drawn only if it has both vertices and indices.
    pub open spec fn retained(self) -> bool {
        self.vertices.len() > 0 && self.indices.len() > 0
    }
}

/// The contents of a clipped mesh: field `0` as `clip`; of field `1`, each
/// element of `vertices` with its coordinates turned into their bit patterns
/// and its colour into four channels, and `indices` as they stand.
pub uninterp spec fn mesh_view(m: ClippedMesh) -> MeshView;

/// The scissor region of a clip rectangle: the origin is the `min` corner,
/// the dimensions are `width()` and `height()`, each number cast to an
/// integer as Rust's `as` does it (towards zero, saturating, zero for NaN).
pub uninterp spec fn scissor_region(clip: Rect) -> Scissor;

/// The views of a frame's meshes, in order.
pub open spec fn mesh_views(meshes: Seq<ClippedMesh>) -> Seq<MeshView> {
    Seq::new(meshes.len(), |i: int| mesh_view(meshes[i]))
}

/// Copies field `0` of a clipped mesh, its clip rectangle.
#[verifier::external_body]
pub(crate) fn clip_of(m: &ClippedMesh) -> (clip: Rect)
    ensures
        clip == mesh_view(*m).clip,
{
    m.0
}

/// `Vec::len` of the mesh's `vertices`.
#[verifier::external_body]
pub(crate) fn vertex_count(m: &ClippedMesh) -> (n: usize)
    ensures
        n == mesh_view(*m).vertices.len(),
{
    m.1.vertices.len()
}

/// Reads vertex `i` of the mesh and converts it: `f32::to_bits` of each
/// coordinate of `pos` and `uv`, `Color32::to_array` of `color`.
#[verifier::external_body]
pub(crate) fn vertex_at(m: &ClippedMesh, i: usize) -> (v: Vertex)
    requires
        i < mesh_view(*m).vertices.len(),
    ensures
        v == mesh_view(*m).vertices[i as int],
{
    let source = &m.1.vertices[i];
    Vertex {
        pos: [source.pos.x.to_bits(), source.pos.y.to_bits()],
        uv: [source.uv.x.to_bits(), source.uv.y.to_bits()],
        color: source.color.to_array(),
    }
}

/// Borrows the mesh's `indices`.
#[verifier::external_body]
pub(crate) fn indices_of(m: &ClippedMesh) -> (indices: &Vec<u32>)
    ensures
        indices@ == mesh_view(*m).indices,
{
    &m.1.indices
}

/// Computes the scissor region of a clip rectangle from its public field
/// `min` and from `Rect::width` and `Rect::height`, casting each number with
/// `as`.
#[verifier::external_body]
pub(crate) fn scissor_of(clip: &Rect) -> (scissor: Scissor)
    ensures
        scissor == scissor_region(*clip),
{
    Scissor {
        origin: [clip.min.x as i32, clip.min.y as i32],
        dimensions: [clip.width() as u32, clip.height() as u32],
    }
}

} // verus!
