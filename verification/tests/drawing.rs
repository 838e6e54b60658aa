use egui_vulkano::{draw_call, emit, pack, DrawCall, MeshRange, Scissor};
use epaint::emath::{pos2, vec2, Rect};
use epaint::{ClippedMesh, Color32, Mesh};

fn filled(clip: Rect, vertices: usize, indices: usize) -> ClippedMesh {
    let mut m = Mesh::default();
    for i in 0..vertices {
        m.vertices.push(epaint::Vertex {
            pos: pos2(i as f32, 0.0),
            uv: pos2(0.0, 0.0),
            color: Color32::WHITE,
        });
    }
    for i in 0..indices {
        m.indices.push((i % vertices.max(1)) as u32);
    }
    ClippedMesh(clip, m)
}

fn range_with(clip: Rect) -> MeshRange {
    MeshRange { vertex_offset: 0, vertex_end: 1, index_offset: 0, index_end: 1, clip }
}

#[test]
fn quad_gets_one_scissored_draw() {
    let clip = Rect::from_min_size(pos2(0.0, 0.0), vec2(50.0, 50.0));
    let frame = pack(&vec![filled(clip, 4, 6)]).unwrap();
    let list = emit(frame);
    assert_eq!(list.calls.len(), 1);
    assert_eq!(list.calls[0].scissor, Scissor { origin: [0, 0], dimensions: [50, 50] });
    assert_eq!(
        list.calls[0],
        DrawCall {
            scissor: Scissor { origin: [0, 0], dimensions: [50, 50] },
            vertex_start: 0,
            vertex_end: 4,
            index_start: 0,
            index_end: 6,
        }
    );
    assert_eq!(list.vertices.len(), 4);
    assert_eq!(list.indices.len(), 6);
}

#[test]
fn draws_follow_the_order_of_the_meshes() {
    let a = Rect::from_min_size(pos2(1.0, 2.0), vec2(3.0, 4.0));
    let b = Rect::from_min_size(pos2(10.0, 20.0), vec2(30.0, 40.0));
    let c = Rect::from_min_size(pos2(100.0, 200.0), vec2(300.0, 400.0));
    let meshes = vec![filled(a, 3, 3), filled(b, 0, 0), filled(c, 4, 6), filled(b, 5, 9)];
    let list = emit(pack(&meshes).unwrap());
    let seen: Vec<([i32; 2], u64, u64, u64, u64)> = list
        .calls
        .iter()
        .map(|c| (c.scissor.origin, c.vertex_start, c.vertex_end, c.index_start, c.index_end))
        .collect();
    assert_eq!(
        seen,
        vec![([1, 2], 0, 3, 0, 3), ([100, 200], 3, 7, 3, 9), ([10, 20], 7, 12, 9, 18)]
    );
    assert_eq!(list.calls[1].scissor.dimensions, [300, 400]);
}

#[test]
fn buffers_pass_through_unchanged() {
    let clip = Rect::from_min_size(pos2(0.0, 0.0), vec2(8.0, 8.0));
    let frame = pack(&vec![filled(clip, 3, 3), filled(clip, 4, 6)]).unwrap();
    let vertices = frame.vertices.clone();
    let indices = frame.indices.clone();
    let list = emit(frame);
    assert_eq!(list.vertices, vertices);
    assert_eq!(list.indices, indices);
}

#[test]
fn scissor_drops_fractions() {
    let clip = Rect::from_min_max(pos2(10.75, 20.25), pos2(111.0, 221.0));
    let call = draw_call(&range_with(clip));
    assert_eq!(call.scissor, Scissor { origin: [10, 20], dimensions: [100, 200] });
}

#[test]
fn scissor_origin_may_be_negative() {
    let clip = Rect::from_min_max(pos2(-5.5, -0.5), pos2(4.5, 9.5));
    let call = draw_call(&range_with(clip));
    assert_eq!(call.scissor, Scissor { origin: [-5, 0], dimensions: [10, 10] });
}

#[test]
fn scissor_of_inverted_rectangle_has_no_extent() {
    let clip = Rect::from_min_max(pos2(30.0, 30.0), pos2(10.0, 20.0));
    let call = draw_call(&range_with(clip));
    assert_eq!(call.scissor, Scissor { origin: [30, 30], dimensions: [0, 0] });
}

#[test]
fn scissor_of_unbounded_rectangle_saturates() {
    let call = draw_call(&range_with(Rect::EVERYTHING));
    assert_eq!(call.scissor.origin, [i32::MIN, i32::MIN]);
    assert_eq!(call.scissor.dimensions, [u32::MAX, u32::MAX]);
}

#[test]
fn draw_call_keeps_the_range() {
    let range = MeshRange {
        vertex_offset: 7,
        vertex_end: 12,
        index_offset: 9,
        index_end: 18,
        clip: Rect::from_min_size(pos2(0.0, 0.0), vec2(1.0, 1.0)),
    };
    let call = draw_call(&range);
    assert_eq!(
        (call.vertex_start, call.vertex_end, call.index_start, call.index_end),
        (7, 12, 9, 18)
    );
}
