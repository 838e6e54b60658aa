//! The draw calls of one frame.

use vstd::prelude::*;
use crate::frame::{
    lemma_nothing_retained, lemma_range_holds_mesh, packed, retained_meshes, Frame, FrameView,
    MeshRange, RangeView,
};
use crate::mesh::MeshView;
use crate::mesh::{scissor_of, scissor_region, Scissor};
use crate::vertex::Vertex;

verus! {

/// One indexed draw: the scissor region to set, and the slices of the
/// frame's vertex and index buffers to bind. Both ends are exclusive.
#[derive(Clone, Copy, Debug, PartialEq, Eq)]
pub struct DrawCall {
    pub scissor: Scissor,
    pub vertex_start: u64,
    pub vertex_end: u64,
    pub index_start: u64,
    pub index_end: u64,
}

/// A draw call over mathematical integers.
pub struct DrawCallView {
    pub scissor: Scissor,
    pub vertex_start: nat,
    pub vertex_end: nat,
    pub index_start: nat,
    pub index_end: nat,
}

impl View for DrawCall {
    type V = DrawCallView;

    open spec fn view(&self) -> DrawCallView {
        DrawCallView {
            scissor: self.scissor,
            vertex_start: self.vertex_start as nat,
            vertex_end: self.vertex_end as nat,
            index_start: self.index_start as nat,
            index_end: self.index_end as nat,
        }
    }
}

/// Everything the command recorder needs for one frame: the contents of the
/// vertex and index buffers, and the draws to issue, first to last.
#[derive(Clone, Debug)]
pub struct DrawList {
    pub vertices: Vec<Vertex>,
    pub indices: Vec<u32>,
    pub calls: Vec<DrawCall>,
}

/// A draw list over sequences.
pub struct DrawListView {
    pub vertices: Seq<Vertex>,
    pub indices: Seq<u32>,
    pub calls: Seq<DrawCallView>,
}

impl View for DrawList {
    type V = DrawListView;

    open spec fn view(&self) -> DrawListView {
        DrawListView {
            vertices: self.vertices@,
            indices: self.indices@,
            calls: self.calls@.map_values(|c: DrawCall| c@),
        }
    }
}

/// The draw that a mesh range asks for: the scissor region of its clip
/// rectangle, and the range's own boundaries.
pub open spec fn draw_of(range: RangeView) -> DrawCallView {
    DrawCallView {
        scissor: scissor_region(range.clip),
        vertex_start: range.vertex_offset,
        vertex_end: range.vertex_end,
        index_start: range.index_offset,
        index_end: range.index_end,
    }
}

/// The draws of a frame: one per range, in the order of the ranges.
pub open spec fn draws_of(frame: FrameView) -> Seq<DrawCallView> {
    frame.ranges.map_values(|r: RangeView| draw_of(r))
}

/// The draw list of a frame: its buffers, and its draws.
pub open spec fn draw_list_of(frame: FrameView) -> DrawListView {
    DrawListView { vertices: frame.vertices, indices: frame.indices, calls: draws_of(frame) }
}

/// The draw call for one mesh range.
pub fn draw_call(range: &MeshRange) -> (call: DrawCall)
    ensures
        call@ == draw_of(range@),
{
    DrawCall {
        scissor: scissor_of(&range.clip),
        vertex_start: range.vertex_offset as u64,
        vertex_end: range.vertex_end as u64,
        index_start: range.index_offset as u64,
        index_end: range.index_end as u64,
    }
}

/// Turns a packed frame into its draw list: the buffers are handed on as
/// they are, and every range becomes one draw, in the same order.
pub fn emit(frame: Frame) -> (list: DrawList)
    ensures
        list@ == draw_list_of(frame@),
{
    let mut calls: Vec<DrawCall> = Vec::new();
    let mut i: usize = 0;
    while i < frame.ranges.len()
        invariant
            i <= frame.ranges.len(),
            calls@.map_values(|c: DrawCall| c@) == draws_of(frame@).take(i as int),
        decreases frame.ranges.len() - i,
    {
        let call = draw_call(&frame.ranges[i]);
        let ghost earlier = calls@.map_values(|c: DrawCall| c@);
        calls.push(call);
        proof {
            assert(calls@.map_values(|c: DrawCall| c@) == earlier.push(call@));
            assert(draws_of(frame@).take(i + 1) == draws_of(frame@).take(i as int).push(
                draws_of(frame@)[i as int],
            ));
        }
        i += 1;
    }
    proof {
        assert(draws_of(frame@).take(frame.ranges.len() as int) == draws_of(frame@));
    }
    DrawList { vertices: frame.vertices, indices: frame.indices, calls }
}

/// A frame without ranges asks for no draw, and a frame asks for as many
/// draws as it has ranges.
pub proof fn lemma_one_draw_per_range(frame: FrameView)
    ensures
        draws_of(frame).len() == frame.ranges.len(),
        frame.ranges.len() == 0 ==> draws_of(frame) == Seq::<DrawCallView>::empty(),
{
}

/// A frame in which every mesh lacks vertices or indices asks for no draw
/// and fills no buffer.
pub proof fn lemma_no_draw_without_retained_mesh(meshes: Seq<MeshView>)
    requires
        forall|i: int| 0 <= i < meshes.len() ==> !(#[trigger] meshes[i]).retained(),
    ensures
        draw_list_of(packed(meshes)).calls.len() == 0,
        draw_list_of(packed(meshes)).vertices.len() == 0,
        draw_list_of(packed(meshes)).indices.len() == 0,
{
    lemma_nothing_retained(meshes);
}

/// Draw `k` of a frame belongs to the `k`-th retained mesh: its scissor is
/// the region of that mesh's clip rectangle, and the slices that it binds
/// hold that mesh's vertices and indices. So the draws come in the order of
/// the meshes.
pub proof fn lemma_draw_holds_mesh(meshes: Seq<MeshView>, k: int)
    requires
        0 <= k < draw_list_of(packed(meshes)).calls.len(),
    ensures
        k < retained_meshes(meshes).len(),
        draw_list_of(packed(meshes)).calls[k].scissor == scissor_region(
            retained_meshes(meshes)[k].clip,
        ),
        draw_list_of(packed(meshes)).calls[k].vertex_end <= draw_list_of(
            packed(meshes),
        ).vertices.len(),
        draw_list_of(packed(meshes)).calls[k].index_end <= draw_list_of(
            packed(meshes),
        ).indices.len(),
        draw_list_of(packed(meshes)).vertices.subrange(
            draw_list_of(packed(meshes)).calls[k].vertex_start as int,
            draw_list_of(packed(meshes)).calls[k].vertex_end as int,
        ) == retained_meshes(meshes)[k].vertices,
        draw_list_of(packed(meshes)).indices.subrange(
            draw_list_of(packed(meshes)).calls[k].index_start as int,
            draw_list_of(packed(meshes)).calls[k].index_end as int,
        ) == retained_meshes(meshes)[k].indices,
{
    lemma_range_holds_mesh(meshes, k);
}

} // verus!
