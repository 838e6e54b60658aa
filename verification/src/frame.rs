//! Packing the meshes of one frame into two contiguous buffers.

use vstd::prelude::*;
use epaint::ClippedMesh;
use epaint::emath::Rect;
use crate::mesh::{clip_of, indices_of, mesh_view, mesh_views, vertex_at, vertex_count, MeshView};
use crate::vertex::Vertex;

verus! {

/// Where one retained mesh lies in the frame's buffers, and its clip
/// rectangle. Both ends are exclusive.
#[derive(Clone, Copy, Debug, PartialEq)]
pub struct MeshRange {
    pub vertex_offset: usize,
    pub vertex_end: usize,
    pub index_offset: usize,
    pub index_end: usize,
    pub clip: Rect,
}

/// A mesh range over mathematical integers.
pub struct RangeView {
    pub vertex_offset: nat,
    pub vertex_end: nat,
    pub index_offset: nat,
    pub index_end: nat,
    pub clip: Rect,
}

impl View for MeshRange {
    type V = RangeView;

    open spec fn view(&self) -> RangeView {
        RangeView {
            vertex_offset: self.vertex_offset as nat,
            vertex_end: self.vertex_end as nat,
            index_offset: self.index_offset as nat,
            index_end: self.index_end as nat,
            clip: self.clip,
        }
    }
}

/// The packed meshes of one frame: every retained mesh's vertices and
/// indices, one mesh after the other, and one range per retained mesh.
#[derive(Clone, Debug)]
pub struct Frame {
    pub vertices: Vec<Vertex>,
    pub indices: Vec<u32>,
    pub ranges: Vec<MeshRange>,
}

/// A frame over sequences.
pub struct FrameView {
    pub vertices: Seq<Vertex>,
    pub indices: Seq<u32>,
    pub ranges: Seq<RangeView>,
}

impl View for Frame {
    type V = FrameView;

    open spec fn view(&self) -> FrameView {
        FrameView {
            vertices: self.vertices@,
            indices: self.indices@,
            ranges: self.ranges@.map_values(|r: MeshRange| r@),
        }
    }
}

impl FrameView {
    /// The frame of no meshes.
    pub open spec fn empty() -> FrameView {
        FrameView { vertices: Seq::empty(), indices: Seq::empty(), ranges: Seq::empty() }
    }

    /// The frame after one more mesh: unchanged if the mesh has no vertices
    /// or no indices, else with the mesh's data appended and a range that
    /// starts where the buffers ended.
    pub open spec fn with_mesh(self, m: MeshView) -> FrameView {
        if m.retained() {
            FrameView {
                vertices: self.vertices + m.vertices,
                indices: self.indices + m.indices,
                ranges: self.ranges.push(
                    RangeView {
                        vertex_offset: self.vertices.len(),
                        vertex_end: self.vertices.len() + m.vertices.len(),
                        index_offset: self.indices.len(),
                        index_end: self.indices.len() + m.indices.len(),
                        clip: m.clip,
                    },
                ),
            }
        } else {
            self
        }
    }

    /// The ranges tile both buffers: none is empty, the first starts at 0,
    /// each of the others starts where the one before it ends, and the last
    /// ends where the buffers end.
    pub open spec fn tiled(self) -> bool {
        &&& forall|k: int|
            0 <= k < self.ranges.len() ==> {
                let r = #[trigger] self.ranges[k];
                r.vertex_offset < r.vertex_end && r.index_offset < r.index_end
            }
        &&& forall|i: int, j: int|
            0 <= i && j == i + 1 && j < self.ranges.len() ==> {
                let r = #[trigger] self.ranges[i];
                let s = #[trigger] self.ranges[j];
                s.vertex_offset == r.vertex_end && s.index_offset == r.index_end
            }
        &&& self.ranges.len() > 0 ==> {
            &&& self.ranges[0].vertex_offset == 0
            &&& self.ranges[0].index_offset == 0
            &&& self.ranges.last().vertex_end == self.vertices.len()
            &&& self.ranges.last().index_end == self.indices.len()
        }
        &&& self.ranges.len() == 0 ==> self.vertices.len() == 0 && self.indices.len() == 0
    }
}

/// The meshes that are drawn, in order.
pub open spec fn retained_meshes(meshes: Seq<MeshView>) -> Seq<MeshView> {
    meshes.filter(|m: MeshView| m.retained())
}

/// The number of vertices in the retained meshes.
pub open spec fn vertex_total(meshes: Seq<MeshView>) -> nat
    decreases meshes.len(),
{
    if meshes.len() == 0 {
        0
    } else if meshes.last().retained() {
        vertex_total(meshes.drop_last()) + meshes.last().vertices.len()
    } else {
        vertex_total(meshes.drop_last())
    }
}

/// The number of indices in the retained meshes.
pub open spec fn index_total(meshes: Seq<MeshView>) -> nat
    decreases meshes.len(),
{
    if meshes.len() == 0 {
        0
    } else if meshes.last().retained() {
        index_total(meshes.drop_last()) + meshes.last().indices.len()
    } else {
        index_total(meshes.drop_last())
    }
}

/// The frame that a sequence of meshes packs into: the meshes are taken in
/// order, each by `with_mesh`.
pub open spec fn packed(meshes: Seq<MeshView>) -> FrameView
    decreases meshes.len(),
{
    if meshes.len() == 0 {
        FrameView::empty()
    } else {
        packed(meshes.drop_last()).with_mesh(meshes.last())
    }
}

/// The buffers of a packed frame are as long as the retained meshes are
/// together.
pub proof fn lemma_packed_lengths(meshes: Seq<MeshView>)
    ensures
        packed(meshes).vertices.len() == vertex_total(meshes),
        packed(meshes).indices.len() == index_total(meshes),
    decreases meshes.len(),
{
    if meshes.len() > 0 {
        lemma_packed_lengths(meshes.drop_last());
    }
}

/// The ranges of a packed frame tile its buffers.
pub proof fn lemma_packed_tiled(meshes: Seq<MeshView>)
    ensures
        packed(meshes).tiled(),
    decreases meshes.len(),
{
    if meshes.len() > 0 {
        lemma_packed_tiled(meshes.drop_last());
        let before = packed(meshes.drop_last());
        let after = packed(meshes);
        if meshes.last().retained() {
            assert forall|k: int| 0 <= k < after.ranges.len() implies {
                let r = #[trigger] after.ranges[k];
                r.vertex_offset < r.vertex_end && r.index_offset < r.index_end
            } by {
                if k < before.ranges.len() {
                    assert(after.ranges[k] == before.ranges[k]);
                }
            }
            assert forall|i: int, j: int|
                0 <= i && j == i + 1 && j < after.ranges.len() implies {
                let r = #[trigger] after.ranges[i];
                let s = #[trigger] after.ranges[j];
                s.vertex_offset == r.vertex_end && s.index_offset == r.index_end
            } by {
                assert(after.ranges[i] == before.ranges[i]);
                if j < before.ranges.len() {
                    assert(after.ranges[j] == before.ranges[j]);
                }
            }
            if before.ranges.len() > 0 {
                assert(after.ranges[0] == before.ranges[0]);
            }
        }
    }
}

/// In a frame whose ranges tile its buffers, the boundaries never decrease
/// from one range to a later one.
pub proof fn lemma_tiled_monotonic(frame: FrameView, i: int, j: int)
    requires
        frame.tiled(),
        0 <= i <= j < frame.ranges.len(),
    ensures
        frame.ranges[i].vertex_offset <= frame.ranges[j].vertex_offset,
        frame.ranges[i].vertex_end <= frame.ranges[j].vertex_end,
        frame.ranges[i].index_offset <= frame.ranges[j].index_offset,
        frame.ranges[i].index_end <= frame.ranges[j].index_end,
        frame.ranges[j].vertex_end <= frame.vertices.len(),
        frame.ranges[j].index_end <= frame.indices.len(),
    decreases frame.ranges.len() - i,
{
    let last = frame.ranges.len() - 1;
    if i < j {
        lemma_tiled_monotonic(frame, i + 1, j);
        assert(frame.ranges[i + 1].vertex_offset == frame.ranges[i].vertex_end);
    } else if j < last {
        lemma_tiled_monotonic(frame, j + 1, last);
        assert(frame.ranges[j + 1].vertex_offset == frame.ranges[j].vertex_end);
    }
}

/// A frame in which every mesh lacks vertices or indices packs into
/// nothing: no range and two empty buffers.
pub proof fn lemma_nothing_retained(meshes: Seq<MeshView>)
    requires
        forall|i: int| 0 <= i < meshes.len() ==> !(#[trigger] meshes[i]).retained(),
    ensures
        packed(meshes) == FrameView::empty(),
    decreases meshes.len(),
{
    if meshes.len() > 0 {
        assert(!meshes[meshes.len() - 1].retained());
        lemma_nothing_retained(meshes.drop_last());
    }
}

/// A packed frame that has no range was packed from meshes of which none
/// is retained.
pub proof fn lemma_no_range_means_nothing_retained(meshes: Seq<MeshView>)
    requires
        packed(meshes).ranges.len() == 0,
    ensures
        forall|i: int| 0 <= i < meshes.len() ==> !(#[trigger] meshes[i]).retained(),
    decreases meshes.len(),
{
    if meshes.len() > 0 {
        let before = meshes.drop_last();
        if meshes.last().retained() {
            assert(packed(meshes).ranges.len() == packed(before).ranges.len() + 1);
        }
        lemma_no_range_means_nothing_retained(before);
        assert forall|i: int| 0 <= i < meshes.len() implies !(#[trigger] meshes[i]).retained() by {
            if i < before.len() {
                assert(meshes[i] == before[i]);
            }
        }
    }
}

/// A packed frame has one range for each retained mesh, in the order of the
/// meshes.
pub proof fn lemma_one_range_per_retained_mesh(meshes: Seq<MeshView>)
    ensures
        packed(meshes).ranges.len() == retained_meshes(meshes).len(),
    decreases meshes.len(),
{
    reveal(Seq::filter);
    if meshes.len() > 0 {
        lemma_one_range_per_retained_mesh(meshes.drop_last());
    }
}

/// Range `k` of a packed frame carries the clip rectangle of the `k`-th
/// retained mesh, and the slices of the two buffers that it names hold that
/// mesh's vertices and indices, unchanged.
pub proof fn lemma_range_holds_mesh(meshes: Seq<MeshView>, k: int)
    requires
        0 <= k < packed(meshes).ranges.len(),
    ensures
        k < retained_meshes(meshes).len(),
        packed(meshes).ranges[k].vertex_end <= packed(meshes).vertices.len(),
        packed(meshes).ranges[k].index_end <= packed(meshes).indices.len(),
        packed(meshes).ranges[k].clip == retained_meshes(meshes)[k].clip,
        packed(meshes).vertices.subrange(
            packed(meshes).ranges[k].vertex_offset as int,
            packed(meshes).ranges[k].vertex_end as int,
        ) == retained_meshes(meshes)[k].vertices,
        packed(meshes).indices.subrange(
            packed(meshes).ranges[k].index_offset as int,
            packed(meshes).ranges[k].index_end as int,
        ) == retained_meshes(meshes)[k].indices,
    decreases meshes.len(),
{
    reveal(Seq::filter);
    lemma_one_range_per_retained_mesh(meshes);
    lemma_packed_tiled(meshes);
    lemma_tiled_monotonic(packed(meshes), k, k);
    if meshes.len() > 0 {
        let before = packed(meshes.drop_last());
        let after = packed(meshes);
        let m = meshes.last();
        lemma_one_range_per_retained_mesh(meshes.drop_last());
        if k < before.ranges.len() {
            lemma_range_holds_mesh(meshes.drop_last(), k);
            let r = before.ranges[k];
            assert(after.ranges[k] == r);
            assert(retained_meshes(meshes)[k] == retained_meshes(meshes.drop_last())[k]);
            assert(after.vertices.subrange(r.vertex_offset as int, r.vertex_end as int)
                == before.vertices.subrange(r.vertex_offset as int, r.vertex_end as int));
            assert(after.indices.subrange(r.index_offset as int, r.index_end as int)
                == before.indices.subrange(r.index_offset as int, r.index_end as int));
        } else {
            let r = after.ranges[k];
            assert(retained_meshes(meshes)[k] == m);
            assert(after.vertices.subrange(r.vertex_offset as int, r.vertex_end as int)
                == m.vertices);
            assert(after.indices.subrange(r.index_offset as int, r.index_end as int)
                == m.indices);
        }
    }
}

/// Packs the clipped meshes of one frame.
///
/// Meshes without vertices or without indices are skipped. The others are
/// appended in order, their indices unchanged. The result is `None` exactly
/// when no mesh was retained, so a frame that is returned has something in
/// both buffers.
pub fn pack(meshes: &Vec<ClippedMesh>) -> (out: Option<Frame>)
    ensures
        out is None <==> packed(mesh_views(meshes@)).ranges.len() == 0,
        out matches Some(frame) ==> frame@ == packed(mesh_views(meshes@)),
        out matches Some(frame) ==> frame@.tiled(),
        out matches Some(frame) ==> frame.vertices@.len() == vertex_total(mesh_views(meshes@))
            && frame.indices@.len() == index_total(mesh_views(meshes@)),
{
    let ghost views = mesh_views(meshes@);
    let mut vertices: Vec<Vertex> = Vec::new();
    let mut indices: Vec<u32> = Vec::new();
    let mut ranges: Vec<MeshRange> = Vec::new();
    let mut i: usize = 0;
    while i < meshes.len()
        invariant
            i <= meshes.len(),
            views == mesh_views(meshes@),
            vertices@ == packed(views.take(i as int)).vertices,
            indices@ == packed(views.take(i as int)).indices,
            ranges@.map_values(|r: MeshRange| r@) == packed(views.take(i as int)).ranges,
        decreases meshes.len() - i,
    {
        let mesh = &meshes[i];
        let ghost m = mesh_view(*mesh);
        let ghost before = packed(views.take(i as int));
        proof {
            assert(views.take(i + 1).drop_last() == views.take(i as int));
            assert(views.take(i + 1).last() == m);
        }
        let n = vertex_count(mesh);
        let source = indices_of(mesh);
        if n != 0 && source.len() != 0 {
            let vertex_offset = vertices.len();
            let index_offset = indices.len();
            let mut j: usize = 0;
            while j < n
                invariant
                    j <= n,
                    n == m.vertices.len(),
                    m == mesh_view(*mesh),
                    vertices@ == before.vertices + m.vertices.take(j as int),
                decreases n - j,
            {
                vertices.push(vertex_at(mesh, j));
                proof {
                    assert(m.vertices.take(j + 1) == m.vertices.take(j as int).push(
                        m.vertices[j as int],
                    ));
                }
                j += 1;
            }
            let mut k: usize = 0;
            while k < source.len()
                invariant
                    k <= source.len(),
                    source@ == m.indices,
                    indices@ == before.indices + m.indices.take(k as int),
                decreases source.len() - k,
            {
                indices.push(source[k]);
                proof {
                    assert(m.indices.take(k + 1) == m.indices.take(k as int).push(
                        m.indices[k as int],
                    ));
                }
                k += 1;
            }
            proof {
                assert(m.vertices.take(n as int) == m.vertices);
                assert(m.indices.take(source.len() as int) == m.indices);
            }
            let range = MeshRange {
                vertex_offset,
                vertex_end: vertices.len(),
                index_offset,
                index_end: indices.len(),
                clip: clip_of(mesh),
            };
            let ghost earlier = ranges@.map_values(|r: MeshRange| r@);
            ranges.push(range);
            proof {
                assert(ranges@.map_values(|r: MeshRange| r@) == earlier.push(range@));
            }
        }
        i += 1;
    }
    proof {
        assert(views.take(meshes.len() as int) == views);
        lemma_packed_tiled(views);
        lemma_packed_lengths(views);
    }
    if ranges.len() == 0 {
        None
    } else {
        Some(Frame { vertices, indices, ranges })
    }
}

} // verus!
