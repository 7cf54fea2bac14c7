use imgui::{DrawIdx, DrawVert, TextureId};
use imgui_dx11_renderer::backup::StateBackup;
use imgui_dx11_renderer::d3d11::{
    BufferDesc, Rect, VertexConstantBuffer, Viewport, DXGI_ERROR_INVALID_CALL,
};
use imgui_dx11_renderer::{
    Action, Command, ContextCall, DrawCmd, DrawCmdParams, DrawData, DrawList, Event, Frame,
    FrameStep, Projection, Renderer, Setup, SetupEvent, SetupStep, FONT_TEX_ID,
};

const CONTEXT_OBJECTS: [u64; 13] = [10, 11, 12, 13, 14, 15, 16, 17, 18, 19, 20, 21, 22];

/// A renderer with the objects: vertex shader 10, input layout 11, constant buffer 12, pixel shader
/// 13, blend state 14, rasterizer state 15, depth and stencil state 16, font view 18, font sampler
/// 19, vertex buffer 20, index buffer 21, context 22.
fn renderer() -> Renderer {
    let mut setup = Setup::new(1);
    let mut objects = CONTEXT_OBJECTS.iter();
    let mut event = SetupEvent::Begin;
    loop {
        event = match Renderer::new(&mut setup, "0.0.0", event) {
            SetupStep::Finish { result } => return result.unwrap(),
            SetupStep::BuildFontTexture => SetupEvent::FontTextureBuilt { width: 8, height: 8 },
            SetupStep::SetFontTextureId { .. } | SetupStep::Announce { .. } => SetupEvent::Done,
            _ => SetupEvent::Created { object: Ok(*objects.next().unwrap()) },
        };
    }
}

fn rect(n: i32) -> Rect {
    Rect { left: n, top: n + 1, right: n + 2, bottom: n + 3 }
}

fn elements(count: usize, texture_id: usize, clip: i32) -> DrawCmd {
    DrawCmd::Elements {
        count,
        cmd_params: DrawCmdParams {
            clip_rect: rect(clip),
            texture_id,
            vtx_offset: 0,
            idx_offset: 0,
        },
    }
}

fn data(draw_lists: Vec<DrawList<'_>>) -> DrawData<'_> {
    let vtx: usize = draw_lists.iter().map(|l| l.vtx_buffer.len()).sum();
    let idx: usize = draw_lists.iter().map(|l| l.idx_buffer.len()).sum();
    DrawData {
        total_idx_count: idx as i32,
        total_vtx_count: vtx as i32,
        display_size: [640.0f32.to_bits(), 480.0f32.to_bits()],
        projection: Projection { scale_x: 1, scale_y: 2, translate_x: 3, translate_y: 4 },
        draw_lists,
    }
}

fn vert(n: u8) -> DrawVert {
    DrawVert { pos: [n as f32; 2], uv: [0.0; 2], col: [n; 4] }
}

fn bind(view: u64) -> Command {
    ContextCall::PsSetShaderResources { slot: 0, views: vec![Some(view)] }
}

fn clip(n: i32) -> Command {
    ContextCall::RsSetScissorRects { rects: vec![rect(n)] }
}

fn draw(index_count: u32, start_index: u32, base_vertex: i32) -> Command {
    ContextCall::DrawIndexed { index_count, start_index, base_vertex }
}

fn setup_calls(vertex_buffer: u64, index_buffer: u64) -> Vec<Command> {
    vec![
        ContextCall::RsSetViewports {
            viewports: vec![Viewport {
                top_left_x: 0,
                top_left_y: 0,
                width: 640.0f32.to_bits(),
                height: 480.0f32.to_bits(),
                min_depth: 0,
                max_depth: 1.0f32.to_bits(),
            }],
        },
        ContextCall::IaSetInputLayout { layout: Some(11) },
        ContextCall::IaSetVertexBuffers {
            slot: 0,
            buffer: Some(vertex_buffer),
            stride: 20,
            offset: 0,
        },
        ContextCall::IaSetIndexBuffer { buffer: Some(index_buffer), format: 57, offset: 0 },
        ContextCall::IaSetPrimitiveTopology { topology: 4 },
        ContextCall::VsSetShader { shader: Some(10), class_instances: None },
        ContextCall::VsSetConstantBuffers { slot: 0, buffers: vec![Some(12)] },
        ContextCall::PsSetShader { shader: Some(13), class_instances: None },
        ContextCall::PsSetSamplers { slot: 0, samplers: vec![Some(19)] },
        ContextCall::GsSetShader { shader: None, class_instances: None },
        ContextCall::HsSetShader { shader: None },
        ContextCall::DsSetShader { shader: None },
        ContextCall::CsSetShader { shader: None },
        ContextCall::OmSetBlendState {
            state: Some(14),
            factor: [0; 4],
            sample_mask: 0xFFFF_FFFF,
        },
        ContextCall::OmSetDepthStencilState { state: Some(16), stencil_ref: 0 },
        ContextCall::RsSetState { state: Some(15) },
    ]
}

#[test]
fn the_render_state_is_set_up() {
    let r = renderer();
    let d = data(vec![]);
    assert_eq!(r.setup_render_state(&d), setup_calls(20, 21));
    assert_eq!(std::mem::size_of::<DrawVert>(), 20);
    assert_eq!(std::mem::size_of::<DrawIdx>(), 2);
}

#[test]
fn nothing_to_draw_binds_the_font() {
    let r = renderer();
    assert_eq!(r.render_impl(&data(vec![])), (vec![bind(18)], Ok(())));
}

#[test]
fn textures_are_bound_where_they_change() {
    let mut r = renderer();
    let a = r.textures_mut().insert(100).id();
    let b = r.textures_mut().insert(101).id();
    assert_eq!(r.textures().get(TextureId::from(b)), Some(&101));
    let d = data(vec![DrawList {
        commands: vec![
            elements(3, FONT_TEX_ID, 0),
            elements(6, a, 10),
            elements(9, a, 20),
            elements(12, b, 30),
            elements(15, FONT_TEX_ID, 40),
            elements(18, FONT_TEX_ID, 50),
        ],
        vtx_buffer: &[],
        idx_buffer: &[],
    }]);
    let (calls, result) = r.render_impl(&d);
    assert_eq!(result, Ok(()));
    assert_eq!(
        calls,
        vec![
            bind(18),
            clip(0),
            draw(3, 0, 0),
            bind(100),
            clip(10),
            draw(6, 3, 0),
            clip(20),
            draw(9, 9, 0),
            bind(101),
            clip(30),
            draw(12, 18, 0),
            bind(18),
            clip(40),
            draw(15, 30, 0),
            clip(50),
            draw(18, 45, 0),
        ]
    );
}

#[test]
fn offsets_follow_the_draw_lists() {
    let r = renderer();
    let vtx: Vec<DrawVert> = (0..4).map(vert).collect();
    let idx: Vec<DrawIdx> = vec![0, 1, 2, 0, 2, 3];
    let d = data(vec![
        DrawList {
            commands: vec![elements(3, FONT_TEX_ID, 0), elements(3, FONT_TEX_ID, 1)],
            vtx_buffer: &vtx,
            idx_buffer: &idx,
        },
        DrawList { commands: vec![], vtx_buffer: &vtx[..1], idx_buffer: &[] },
        DrawList {
            commands: vec![elements(6, FONT_TEX_ID, 2)],
            vtx_buffer: &vtx,
            idx_buffer: &idx,
        },
    ]);
    let (calls, _) = r.render_impl(&d);
    let draws: Vec<Command> =
        calls.into_iter().filter(|c| matches!(c, ContextCall::DrawIndexed { .. })).collect();
    assert_eq!(draws, vec![draw(3, 0, 0), draw(3, 3, 0), draw(6, 6, 5)]);
}

#[test]
fn every_draw_reads_its_own_geometry() {
    let r = renderer();
    let first: Vec<DrawVert> = (0..4).map(vert).collect();
    let second: Vec<DrawVert> = (10..13).map(vert).collect();
    let first_idx: Vec<DrawIdx> = vec![0, 1, 2, 0, 2, 3];
    let second_idx: Vec<DrawIdx> = vec![2, 1, 0];
    let d = data(vec![
        DrawList {
            commands: vec![elements(6, FONT_TEX_ID, 0)],
            vtx_buffer: &first,
            idx_buffer: &first_idx,
        },
        DrawList {
            commands: vec![elements(3, FONT_TEX_ID, 0)],
            vtx_buffer: &second,
            idx_buffer: &second_idx,
        },
    ]);
    let mut vtx = vec![vert(255); 7];
    let mut idx: Vec<DrawIdx> = vec![0; 9];
    Renderer::write_buffers(&d, &mut vtx, &mut idx);
    let mut read = Vec::new();
    for call in r.render_impl(&d).0 {
        if let ContextCall::DrawIndexed { index_count, start_index, base_vertex } = call {
            for i in 0..index_count {
                let index = idx[(start_index + i) as usize] as i32;
                read.push(vtx[(base_vertex + index) as usize].col[0]);
            }
        }
    }
    assert_eq!(read, vec![0, 1, 2, 0, 2, 3, 12, 11, 10]);
}

#[test]
fn reset_and_callbacks_keep_their_place() {
    let mut r = renderer();
    let a = r.textures_mut().insert(100).id();
    let d = data(vec![
        DrawList { commands: vec![elements(3, a, 0)], vtx_buffer: &[], idx_buffer: &[] },
        DrawList {
            commands: vec![
                DrawCmd::ResetRenderState,
                DrawCmd::RawCallback,
                elements(3, a, 5),
            ],
            vtx_buffer: &[],
            idx_buffer: &[],
        },
    ]);
    let mut expected = vec![bind(18), bind(100), clip(0), draw(3, 0, 0)];
    expected.extend(setup_calls(20, 21));
    expected.push(ContextCall::RawCallback { list: 1, command: 1 });
    expected.push(clip(5));
    expected.push(draw(3, 3, 0));
    assert_eq!(r.render_impl(&d), (expected, Ok(())));
}

#[test]
fn an_invalid_texture_stops_the_drawing() {
    let mut r = renderer();
    let a = r.textures_mut().insert(100).id();
    let gone = r.textures_mut().insert(101).id();
    r.textures_mut().remove(TextureId::from(gone));
    let d = data(vec![DrawList {
        commands: vec![elements(3, a, 0), elements(3, gone, 1), elements(3, a, 2)],
        vtx_buffer: &[],
        idx_buffer: &[],
    }]);
    assert_eq!(
        r.render_impl(&d),
        (
            vec![bind(18), bind(100), clip(0), draw(3, 0, 0)],
            Err(DXGI_ERROR_INVALID_CALL)
        )
    );
}

#[test]
fn a_texture_in_the_font_slot_is_ignored() {
    let mut r = renderer();
    let d = data(vec![DrawList {
        commands: vec![elements(3, 0, 0), elements(3, FONT_TEX_ID, 1)],
        vtx_buffer: &[],
        idx_buffer: &[],
    }]);
    r.textures_mut().insert(100);
    let before = r.render_impl(&d);
    assert_eq!(r.textures_mut().replace(TextureId::from(FONT_TEX_ID), 999), None);
    assert_eq!(r.render_impl(&d), before);
    assert_eq!(
        before,
        (
            vec![bind(18), bind(100), clip(0), draw(3, 0, 0), bind(18), clip(1), draw(3, 3, 0)],
            Ok(())
        )
    );
}

/// Renders a frame with a device that creates buffers with the given handles and fails at the given
/// action, and returns the actions.
fn run(
    r: &mut Renderer,
    d: &DrawData<'_>,
    objects: &[u64],
    failing: Option<(usize, i32)>,
) -> Vec<Action> {
    let mut frame = Frame::new();
    let mut event = Event::Begin;
    let mut objects = objects.iter();
    let mut actions = Vec::new();
    loop {
        let action = r.render(d, &mut frame, event);
        let error = match failing {
            Some((at, code)) if at == actions.len() => Some(code),
            _ => None,
        };
        event = match &action {
            FrameStep::CreateBuffer { .. } => Event::Created {
                object: match error {
                    Some(code) => Err(code),
                    None => Ok(*objects.next().unwrap()),
                },
            },
            FrameStep::Save { .. } => Event::Saved { backup: StateBackup::backup(vec![]) },
            FrameStep::MapBuffer { .. } => Event::Mapped {
                result: match error {
                    Some(code) => Err(code),
                    None => Ok(()),
                },
            },
            FrameStep::Finish { .. } => {
                actions.push(action);
                return actions;
            },
            _ => Event::Done,
        };
        actions.push(action);
    }
}

fn finish(result: Result<(), i32>) -> Action {
    FrameStep::Finish { result }
}

fn map(buffer: u64) -> Action {
    FrameStep::MapBuffer { buffer, map_type: 4 }
}

fn issue(commands: Vec<Command>) -> Action {
    FrameStep::Issue { commands }
}

fn unmap(resource: u64) -> Command {
    ContextCall::Unmap { resource }
}

fn constants() -> Action {
    let half = 0.5f32.to_bits();
    let one = 1.0f32.to_bits();
    FrameStep::WriteConstants {
        constants: VertexConstantBuffer {
            mvp: [[1, 0, 0, 0], [0, 2, 0, 0], [0, 0, half, 0], [3, 4, half, one]],
        },
    }
}

#[test]
fn a_frame_from_beginning_to_end() {
    let mut r = renderer();
    let vtx = [vert(1)];
    let idx: [DrawIdx; 3] = [0, 0, 0];
    let d = data(vec![DrawList {
        commands: vec![elements(3, FONT_TEX_ID, 7)],
        vtx_buffer: &vtx,
        idx_buffer: &idx,
    }]);
    let actions = run(&mut r, &d, &[], None);
    let mut drawing = vec![unmap(12)];
    drawing.extend(setup_calls(20, 21));
    drawing.extend(vec![bind(18), clip(7), draw(3, 0, 0)]);
    assert_eq!(
        actions,
        vec![
            FrameStep::Save { queries: StateBackup::queries() },
            map(20),
            map(21),
            FrameStep::WriteGeometry { vtx_count: 1, idx_count: 3 },
            issue(vec![unmap(20), unmap(21)]),
            map(12),
            constants(),
            issue(drawing),
            issue(StateBackup::default().restore()),
            finish(Ok(())),
        ]
    );
}

#[test]
fn an_empty_display_renders_nothing() {
    let mut r = renderer();
    for size in [[0.0f32, 480.0], [640.0, 0.0], [-1.0, 480.0], [640.0, -0.0]] {
        let mut d = data(vec![]);
        d.total_vtx_count = -1;
        d.display_size = [size[0].to_bits(), size[1].to_bits()];
        assert_eq!(run(&mut r, &d, &[], None), vec![finish(Ok(()))]);
    }
    let mut d = data(vec![]);
    d.display_size = [f32::NAN.to_bits(), 480.0f32.to_bits()];
    assert_eq!(run(&mut r, &d, &[], None).len(), 10);
}

#[test]
fn buffers_grow_where_they_are_too_small() {
    let mut r = renderer();
    let mut d = data(vec![]);
    d.total_vtx_count = 5001;
    d.total_idx_count = 20000;
    let actions = run(&mut r, &d, &[30, 31], None);
    let desc = |byte_width, bind_flags| BufferDesc {
        byte_width,
        usage: 2,
        bind_flags,
        cpu_access_flags: 65536,
        misc_flags: 0,
        structure_byte_stride: 0,
    };
    assert_eq!(actions[0], FrameStep::CreateBuffer { desc: desc(10001 * 20, 1) });
    assert_eq!(actions[1], FrameStep::CreateBuffer { desc: desc(30000 * 2, 2) });
    assert_eq!(actions[3], map(30));
    assert_eq!(actions[4], map(31));
    assert_eq!(actions.len(), 12);
    assert_eq!(r.setup_render_state(&d), setup_calls(30, 31));
    d.total_vtx_count = 10001;
    d.total_idx_count = 30000;
    assert_eq!(run(&mut r, &d, &[], None).len(), 10);
    d.total_vtx_count = 10002;
    assert_eq!(run(&mut r, &d, &[32], None).len(), 11);
    d.total_vtx_count = 10;
    assert_eq!(run(&mut r, &d, &[], None).len(), 10);
    assert_eq!(r.setup_render_state(&d), setup_calls(32, 31));
}

#[test]
fn a_buffer_of_just_the_right_size_is_kept() {
    let mut r = renderer();
    let mut d = data(vec![]);
    d.total_vtx_count = 5000;
    d.total_idx_count = 10000;
    assert_eq!(run(&mut r, &d, &[], None).len(), 10);
    assert_eq!(r.setup_render_state(&d), setup_calls(20, 21));
}

#[test]
fn a_failed_creation_ends_the_frame() {
    let mut r = renderer();
    let mut d = data(vec![]);
    d.total_vtx_count = 5001;
    d.total_idx_count = 10001;
    let actions = run(&mut r, &d, &[], Some((0, -7)));
    assert_eq!(actions.len(), 2);
    assert_eq!(actions[1], finish(Err(-7)));
    assert_eq!(r.setup_render_state(&d), setup_calls(20, 21));
    let actions = run(&mut r, &d, &[40], Some((1, -8)));
    assert_eq!(actions.len(), 3);
    assert_eq!(actions[2], finish(Err(-8)));
    assert_eq!(r.setup_render_state(&d), setup_calls(40, 21));
}

#[test]
fn a_failed_mapping_ends_the_frame() {
    let mut r = renderer();
    let d = data(vec![]);
    for (at, code) in [(1usize, -1), (2, -2), (5, -5)] {
        let actions = run(&mut r, &d, &[], Some((at, code)));
        assert_eq!(actions.len(), at + 2);
        assert_eq!(actions[at + 1], finish(Err(code)));
    }
}

#[test]
fn an_invalid_texture_ends_the_frame_without_restoring() {
    let mut r = renderer();
    let d = data(vec![DrawList {
        commands: vec![elements(3, 5, 0)],
        vtx_buffer: &[],
        idx_buffer: &[],
    }]);
    let actions = run(&mut r, &d, &[], None);
    let mut drawing = vec![unmap(12)];
    drawing.extend(setup_calls(20, 21));
    drawing.push(bind(18));
    assert_eq!(actions.len(), 9);
    assert_eq!(actions[7], issue(drawing));
    assert_eq!(actions[8], finish(Err(DXGI_ERROR_INVALID_CALL)));
}

#[test]
fn a_failure_comes_before_what_is_read_later() {
    let mut r = renderer();
    let mut d = data(vec![]);
    d.total_vtx_count = 5001;
    d.total_idx_count = -1;
    let actions = run(&mut r, &d, &[], Some((0, -9)));
    assert_eq!(actions.len(), 2);
    assert_eq!(actions[1], finish(Err(-9)));
}

#[test]
fn what_overflows_is_not_accepted() {
    let mut r = renderer();
    let mut frame = Frame::new();
    let mut d = data(vec![]);
    assert!(r.accepts(&d, &frame, &Event::Begin));
    d.total_idx_count = -1;
    assert!(!r.accepts(&d, &frame, &Event::Begin));
    d.total_vtx_count = 5001;
    assert!(r.accepts(&d, &frame, &Event::Begin));
    d.total_vtx_count = -1;
    assert!(!r.accepts(&d, &frame, &Event::Begin));
    d.display_size[0] = 0;
    assert!(r.accepts(&d, &frame, &Event::Begin));
    d = data(vec![]);
    d.total_vtx_count = 5001;
    r.render(&d, &mut frame, Event::Begin);
    d.total_idx_count = -1;
    assert!(!r.accepts(&d, &frame, &Event::Created { object: Ok(5) }));
    assert!(r.accepts(&d, &frame, &Event::Created { object: Err(5) }));
}

#[test]
fn only_what_is_drawn_is_counted() {
    let r = renderer();
    let list = |commands| DrawList { commands, vtx_buffer: &[], idx_buffer: &[] };
    let huge = usize::MAX;
    let d = data(vec![list(vec![
        elements(huge, FONT_TEX_ID, 0),
        elements(1, FONT_TEX_ID, 1),
    ])]);
    assert!(!r.can_draw(&d));
    let d = data(vec![
        list(vec![elements(huge, FONT_TEX_ID, 0), elements(1, 7, 1)]),
        list(vec![elements(huge, FONT_TEX_ID, 2)]),
    ]);
    assert!(r.can_draw(&d));
    assert_eq!(
        r.render_impl(&d),
        (
            vec![bind(18), clip(0), draw(u32::MAX, 0, 0)],
            Err(DXGI_ERROR_INVALID_CALL)
        )
    );
}
