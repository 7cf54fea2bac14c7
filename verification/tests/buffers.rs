use imgui::{DrawIdx, DrawVert};
use imgui_dx11_renderer::d3d11::BufferDesc;
use imgui_dx11_renderer::{Buffer, DrawData, DrawList, Projection, Renderer};

fn vert(n: u8) -> DrawVert {
    DrawVert { pos: [n as f32, 1.0], uv: [0.5, n as f32], col: [n, 0, 0, 255] }
}

fn data(draw_lists: Vec<DrawList<'_>>) -> DrawData<'_> {
    DrawData {
        total_idx_count: 100,
        total_vtx_count: 100,
        display_size: [1.0f32.to_bits(), 1.0f32.to_bits()],
        projection: Projection { scale_x: 0, scale_y: 0, translate_x: 0, translate_y: 0 },
        draw_lists,
    }
}

#[test]
fn a_vertex_buffer_has_room_for_more() {
    let plan = Renderer::create_vertex_buffer(0);
    assert_eq!(plan.len, 5000);
    assert_eq!(
        plan.desc,
        BufferDesc {
            byte_width: 100_000,
            usage: 2,
            bind_flags: 1,
            cpu_access_flags: 65536,
            misc_flags: 0,
            structure_byte_stride: 0,
        }
    );
    let plan = Renderer::create_vertex_buffer(7);
    assert_eq!(plan.len, 5007);
    assert_eq!(plan.desc.byte_width as usize, 5007 * std::mem::size_of::<DrawVert>());
}

#[test]
fn an_index_buffer_has_room_for_more() {
    let plan = Renderer::create_index_buffer(0);
    assert_eq!(plan.len, 10000);
    assert_eq!(
        plan.desc,
        BufferDesc {
            byte_width: 20_000,
            usage: 2,
            bind_flags: 2,
            cpu_access_flags: 65536,
            misc_flags: 0,
            structure_byte_stride: 0,
        }
    );
    let plan = Renderer::create_index_buffer(123);
    assert_eq!(plan.len, 10123);
    assert_eq!(plan.desc.byte_width as usize, 10123 * std::mem::size_of::<DrawIdx>());
}

#[test]
fn the_size_of_a_huge_buffer_is_truncated() {
    let count: usize = 300_000_000;
    let plan = Renderer::create_vertex_buffer(count);
    assert_eq!(plan.len, 300_005_000);
    assert_eq!(plan.desc.byte_width, (300_005_000u64 * 20) as u32);
    assert_eq!(plan.desc.byte_width, 1_705_132_704);
}

#[test]
fn a_buffer_knows_its_handle_and_its_room() {
    let buffer = Buffer::new(17, 4);
    assert_eq!(buffer.get_buf(), 17);
    assert_eq!(buffer.len(), 4);
}

#[test]
fn geometry_is_written_one_list_after_the_other() {
    let first = [vert(1), vert(2)];
    let second = [vert(3)];
    let indices: [DrawIdx; 3] = [0, 1, 0];
    let more: [DrawIdx; 1] = [9];
    let d = data(vec![
        DrawList { commands: vec![], vtx_buffer: &first, idx_buffer: &indices },
        DrawList { commands: vec![], vtx_buffer: &[], idx_buffer: &[] },
        DrawList { commands: vec![], vtx_buffer: &second, idx_buffer: &more },
    ]);
    let mut vtx = vec![vert(200); 5];
    let mut idx: Vec<DrawIdx> = vec![77; 6];
    Renderer::write_buffers(&d, &mut vtx, &mut idx);
    assert_eq!(vtx, vec![vert(1), vert(2), vert(3), vert(200), vert(200)]);
    assert_eq!(idx, vec![0, 1, 0, 9, 77, 77]);
}

#[test]
fn geometry_may_fill_the_memory() {
    let only = [vert(1)];
    let indices: [DrawIdx; 1] = [5];
    let d = data(vec![DrawList { commands: vec![], vtx_buffer: &only, idx_buffer: &indices }]);
    let mut vtx = vec![vert(0)];
    let mut idx: Vec<DrawIdx> = vec![0];
    Renderer::write_buffers(&d, &mut vtx, &mut idx);
    assert_eq!(vtx, vec![vert(1)]);
    assert_eq!(idx, vec![5]);
}

#[test]
fn no_geometry_writes_nothing() {
    let d = data(vec![]);
    let mut vtx = vec![vert(3)];
    let mut idx: Vec<DrawIdx> = vec![4];
    Renderer::write_buffers(&d, &mut vtx, &mut idx);
    assert_eq!(vtx, vec![vert(3)]);
    assert_eq!(idx, vec![4]);
}
