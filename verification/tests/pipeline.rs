use imgui_dx11_renderer::d3d11::{Rect, Viewport};
use imgui_dx11_renderer::{
    Answer, Command, ContextCall, DrawCmd, DrawCmdParams, DrawData, DrawList, Event, Frame,
    FrameStep, Projection, Query, Renderer, Setup, SetupEvent, SetupStep, StateBackup,
    FONT_TEX_ID,
};

/// A device context that remembers what calls set
#[derive(Clone, Debug, PartialEq)]
struct Context {
    scissor_rects: Vec<Rect>,
    viewports: Vec<Viewport>,
    rasterizer_state: Option<u64>,
    blend_state: Option<u64>,
    blend_factor: [u32; 4],
    sample_mask: u32,
    depth_stencil_state: Option<u64>,
    stencil_ref: u32,
    ps_resource: Option<u64>,
    ps_sampler: Option<u64>,
    vs_constant_buffer: Option<u64>,
    ps: Option<u64>,
    vs: Option<u64>,
    gs: Option<u64>,
    hs: Option<u64>,
    ds: Option<u64>,
    cs: Option<u64>,
    topology: i32,
    index_buffer: (Option<u64>, i32, u32),
    vertex_buffer: (Option<u64>, u32, u32),
    input_layout: Option<u64>,
    draws: Vec<(Option<u64>, Vec<Rect>, u32)>,
}

impl Context {
    fn apply(&mut self, command: Command) {
        match command {
            ContextCall::RsSetViewports { viewports } => self.viewports = viewports,
            ContextCall::RsSetScissorRects { rects } => self.scissor_rects = rects,
            ContextCall::RsSetState { state } => self.rasterizer_state = state,
            ContextCall::IaSetInputLayout { layout } => self.input_layout = layout,
            ContextCall::IaSetVertexBuffers { buffer, stride, offset, .. } => {
                self.vertex_buffer = (buffer, stride, offset)
            },
            ContextCall::IaSetIndexBuffer { buffer, format, offset } => {
                self.index_buffer = (buffer, format, offset)
            },
            ContextCall::IaSetPrimitiveTopology { topology } => self.topology = topology,
            ContextCall::VsSetShader { shader, .. } => self.vs = shader,
            ContextCall::PsSetShader { shader, .. } => self.ps = shader,
            ContextCall::GsSetShader { shader, .. } => self.gs = shader,
            ContextCall::HsSetShader { shader } => self.hs = shader,
            ContextCall::DsSetShader { shader } => self.ds = shader,
            ContextCall::CsSetShader { shader } => self.cs = shader,
            ContextCall::VsSetConstantBuffers { buffers, .. } => {
                if let Some(buffer) = buffers.first() {
                    self.vs_constant_buffer = *buffer
                }
            },
            ContextCall::PsSetShaderResources { views, .. } => {
                if let Some(view) = views.first() {
                    self.ps_resource = *view
                }
            },
            ContextCall::PsSetSamplers { samplers, .. } => {
                if let Some(sampler) = samplers.first() {
                    self.ps_sampler = *sampler
                }
            },
            ContextCall::OmSetBlendState { state, factor, sample_mask } => {
                self.blend_state = state;
                self.blend_factor = factor;
                self.sample_mask = sample_mask;
            },
            ContextCall::OmSetDepthStencilState { state, stencil_ref } => {
                self.depth_stencil_state = state;
                self.stencil_ref = stencil_ref;
            },
            ContextCall::DrawIndexed { index_count, .. } => {
                self.draws.push((self.ps_resource, self.scissor_rects.clone(), index_count))
            },
            ContextCall::Unmap { .. } | ContextCall::RawCallback { .. } => {},
        }
    }

    fn answer(&self, query: Query) -> Answer {
        let instances = [None; 256];
        match query {
            Query::ScissorRects { count } => Answer::ScissorRects {
                count,
                rects: [Rect { left: 0, top: 0, right: 0, bottom: 0 }; 16],
            },
            Query::Viewports { count } => Answer::Viewports { count, viewports: [viewport(0); 16] },
            Query::RasterizerState => Answer::RasterizerState { state: self.rasterizer_state },
            Query::BlendState => Answer::BlendState {
                state: self.blend_state,
                factor: self.blend_factor,
                sample_mask: self.sample_mask,
            },
            Query::DepthStencilState => Answer::DepthStencilState {
                state: self.depth_stencil_state,
                stencil_ref: self.stencil_ref,
            },
            Query::PsShaderResources { slots, .. } => {
                Answer::PsShaderResources { objects: vec![self.ps_resource; slots] }
            },
            Query::PsSamplers { slots, .. } => {
                Answer::PsSamplers { objects: vec![self.ps_sampler; slots] }
            },
            Query::PsShader { instances_count } => {
                Answer::PsShader { shader: self.ps, instances_count, instances }
            },
            Query::VsShader { instances_count } => {
                Answer::VsShader { shader: self.vs, instances_count, instances }
            },
            Query::VsConstantBuffers { slots, .. } => {
                Answer::VsConstantBuffers { objects: vec![self.vs_constant_buffer; slots] }
            },
            Query::GsShader { instances_count } => {
                Answer::GsShader { shader: self.gs, instances_count, instances }
            },
            Query::PrimitiveTopology => Answer::PrimitiveTopology { topology: self.topology },
            Query::IndexBuffer => Answer::IndexBuffer {
                buffer: self.index_buffer.0,
                format: self.index_buffer.1,
                offset: self.index_buffer.2,
            },
            Query::VertexBuffer { .. } => Answer::VertexBuffer {
                buffer: self.vertex_buffer.0,
                stride: self.vertex_buffer.1,
                offset: self.vertex_buffer.2,
            },
            Query::InputLayout => Answer::InputLayout { layout: self.input_layout },
        }
    }
}

fn viewport(n: u32) -> Viewport {
    Viewport { top_left_x: n, top_left_y: n, width: n, height: n, min_depth: n, max_depth: n }
}

fn context() -> Context {
    Context {
        scissor_rects: vec![],
        viewports: vec![],
        rasterizer_state: Some(200),
        blend_state: None,
        blend_factor: [5, 6, 7, 8],
        sample_mask: 3,
        depth_stencil_state: Some(201),
        stencil_ref: 17,
        ps_resource: Some(202),
        ps_sampler: Some(203),
        vs_constant_buffer: Some(204),
        ps: Some(205),
        vs: None,
        gs: Some(206),
        hs: Some(207),
        ds: Some(208),
        cs: Some(209),
        topology: 1,
        index_buffer: (Some(210), 42, 4),
        vertex_buffer: (None, 12, 24),
        input_layout: Some(211),
        draws: vec![],
    }
}

fn renderer() -> Renderer {
    let mut setup = Setup::new(1);
    let mut object: u64 = 9;
    let mut event = SetupEvent::Begin;
    loop {
        event = match Renderer::new(&mut setup, "0.0.0", event) {
            SetupStep::Finish { result } => return result.unwrap(),
            SetupStep::BuildFontTexture => SetupEvent::FontTextureBuilt { width: 8, height: 8 },
            SetupStep::SetFontTextureId { .. } | SetupStep::Announce { .. } => SetupEvent::Done,
            _ => {
                object += 1;
                SetupEvent::Created { object: Ok(object) }
            },
        };
    }
}

fn elements(count: usize, texture_id: usize, clip: i32) -> DrawCmd {
    DrawCmd::Elements {
        count,
        cmd_params: DrawCmdParams {
            clip_rect: Rect { left: clip, top: clip, right: clip, bottom: clip },
            texture_id,
            vtx_offset: 0,
            idx_offset: 0,
        },
    }
}

fn draw(r: &mut Renderer, context: &mut Context, commands: Vec<DrawCmd>) -> Result<(), i32> {
    let d = DrawData {
        total_idx_count: 0,
        total_vtx_count: 0,
        display_size: [1.0f32.to_bits(); 2],
        projection: Projection { scale_x: 0, scale_y: 0, translate_x: 0, translate_y: 0 },
        draw_lists: vec![DrawList { commands, vtx_buffer: &[], idx_buffer: &[] }],
    };
    let mut frame = Frame::new();
    let mut event = Event::Begin;
    loop {
        event = match r.render(&d, &mut frame, event) {
            FrameStep::Save { queries } => Event::Saved {
                backup: StateBackup::backup(
                    queries.into_iter().map(|query| context.answer(query)).collect(),
                ),
            },
            FrameStep::CreateBuffer { .. } => Event::Created { object: Ok(99) },
            FrameStep::MapBuffer { .. } => Event::Mapped { result: Ok(()) },
            FrameStep::WriteGeometry { .. } | FrameStep::WriteConstants { .. } => Event::Done,
            FrameStep::Issue { commands } => {
                for command in commands {
                    context.apply(command);
                }
                Event::Done
            },
            FrameStep::Finish { result } => return result,
        };
    }
}

#[test]
fn a_frame_leaves_the_pipeline_as_it_found_it() {
    let before = context();
    let mut after = context();
    assert_eq!(draw(&mut renderer(), &mut after, vec![]), Ok(()));
    assert_eq!(
        after,
        Context {
            scissor_rects: vec![Rect { left: 0, top: 0, right: 0, bottom: 0 }; 16],
            viewports: vec![viewport(0); 16],
            sample_mask: 0xFFFF_FFFF,
            topology: 4,
            ps_resource: Some(18),
            ps_sampler: Some(19),
            vs_constant_buffer: Some(12),
            vs: Some(10),
            hs: None,
            ds: None,
            cs: None,
            ..before
        }
    );
}

#[test]
fn every_draw_uses_its_texture() {
    let mut r = renderer();
    let a = r.textures_mut().insert(100).id();
    let mut after = context();
    let commands = vec![
        elements(1, FONT_TEX_ID, 0),
        elements(2, a, 1),
        DrawCmd::ResetRenderState,
        elements(3, a, 2),
        elements(4, FONT_TEX_ID, 3),
    ];
    assert_eq!(draw(&mut r, &mut after, commands), Ok(()));
    let rect = |n| vec![Rect { left: n, top: n, right: n, bottom: n }];
    assert_eq!(
        after.draws,
        vec![
            (Some(18), rect(0), 1),
            (Some(100), rect(1), 2),
            (Some(100), rect(2), 3),
            (Some(18), rect(3), 4),
        ]
    );
}

#[test]
fn a_failed_frame_leaves_the_pipeline_set_up() {
    let mut after = context();
    assert!(draw(&mut renderer(), &mut after, vec![elements(1, 7, 0)]).is_err());
    assert_eq!(after.ps, Some(13));
    assert_eq!(after.vs, Some(10));
    assert_eq!(after.rasterizer_state, Some(15));
    assert_eq!(after.draws, vec![]);
}

#[test]
fn setting_up_twice_is_setting_up_once() {
    let r = renderer();
    let d = DrawData {
        total_idx_count: 0,
        total_vtx_count: 0,
        display_size: [1.0f32.to_bits(); 2],
        projection: Projection { scale_x: 0, scale_y: 0, translate_x: 0, translate_y: 0 },
        draw_lists: vec![],
    };
    let mut once = context();
    for command in r.setup_render_state(&d) {
        once.apply(command);
    }
    let mut twice = once.clone();
    for command in r.setup_render_state(&d) {
        twice.apply(command);
    }
    assert_eq!(twice, once);
}
