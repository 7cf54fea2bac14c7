use imgui_dx11_renderer::d3d11::{Rect, Viewport};
use imgui_dx11_renderer::{Answer, Command, ContextCall, Query, StateBackup};

fn rects(n: i32) -> [Rect; 16] {
    [Rect { left: n, top: n, right: n, bottom: n }; 16]
}

fn viewports(n: u32) -> [Viewport; 16] {
    [Viewport {
        top_left_x: n,
        top_left_y: n,
        width: n,
        height: n,
        min_depth: n,
        max_depth: n,
    }; 16]
}

fn instances(first: u64) -> [Option<u64>; 256] {
    let mut all = [None; 256];
    all[0] = Some(first);
    all[1] = Some(first + 1);
    all
}

fn answers() -> Vec<Answer> {
    vec![
        Answer::ScissorRects { count: 1, rects: rects(3) },
        Answer::Viewports { count: 2, viewports: viewports(4) },
        Answer::RasterizerState { state: Some(50) },
        Answer::BlendState { state: Some(51), factor: [1, 2, 3, 4], sample_mask: 7 },
        Answer::DepthStencilState { state: Some(52), stencil_ref: 9 },
        Answer::PsShaderResources { objects: vec![] },
        Answer::PsSamplers { objects: vec![] },
        Answer::PsShader { shader: Some(53), instances_count: 2, instances: instances(60) },
        Answer::VsShader { shader: Some(54), instances_count: 0, instances: [None; 256] },
        Answer::VsConstantBuffers { objects: vec![] },
        Answer::GsShader { shader: Some(55), instances_count: 1, instances: instances(70) },
        Answer::PrimitiveTopology { topology: 1 },
        Answer::IndexBuffer { buffer: Some(56), format: 42, offset: 8 },
        Answer::VertexBuffer { buffer: Some(57), stride: 32, offset: 16 },
        Answer::InputLayout { layout: Some(58) },
    ]
}

#[test]
fn a_blank_backup_holds_nothing() {
    let blank = StateBackup::default();
    assert_eq!(blank.scissor_rects_count, 0);
    assert_eq!(blank.scissor_rects, rects(0));
    assert_eq!(blank.viewports_count, 0);
    assert_eq!(blank.viewports, viewports(0));
    assert_eq!(blank.blend_factor, [0; 4]);
    assert_eq!(blank.shader_resource, vec![]);
    assert_eq!(blank.sampler, vec![]);
    assert_eq!(blank.constant_buffer, vec![]);
    assert_eq!(blank.ps_instances, [None; 256]);
    assert_eq!(blank.vs_instances, [None; 256]);
    assert_eq!(blank.gs_instances, [None; 256]);
    assert_eq!((blank.index_buffer_format, blank.topology), (0, 0));
    assert_eq!(StateBackup::backup(vec![]), blank);
}

#[test]
fn a_backup_asks_these_questions() {
    assert_eq!(
        StateBackup::queries(),
        vec![
            Query::ScissorRects { count: 0 },
            Query::Viewports { count: 0 },
            Query::RasterizerState,
            Query::BlendState,
            Query::DepthStencilState,
            Query::PsShaderResources { slot: 0, slots: 0 },
            Query::PsSamplers { slot: 0, slots: 0 },
            Query::PsShader { instances_count: 0 },
            Query::VsShader { instances_count: 0 },
            Query::VsConstantBuffers { slot: 0, slots: 0 },
            Query::GsShader { instances_count: 0 },
            Query::PrimitiveTopology,
            Query::IndexBuffer,
            Query::VertexBuffer { slot: 0 },
            Query::InputLayout,
        ]
    );
}

#[test]
fn a_backup_holds_the_answers() {
    let backup = StateBackup::backup(answers());
    assert_eq!((backup.scissor_rects_count, backup.scissor_rects), (1, rects(3)));
    assert_eq!((backup.viewports_count, backup.viewports), (2, viewports(4)));
    assert_eq!(backup.rasterizer_state, Some(50));
    assert_eq!(backup.blend_state, Some(51));
    assert_eq!(backup.blend_factor, [1, 2, 3, 4]);
    assert_eq!(backup.sample_mask, 7);
    assert_eq!((backup.depth_stencil_state, backup.stencil_ref), (Some(52), 9));
    assert_eq!((backup.ps_shader, backup.ps_instances_count), (Some(53), 2));
    assert_eq!(backup.ps_instances, instances(60));
    assert_eq!((backup.vs_shader, backup.vs_instances_count), (Some(54), 0));
    assert_eq!((backup.gs_shader, backup.gs_instances_count), (Some(55), 1));
    assert_eq!(backup.topology, 1);
    assert_eq!(backup.index_buffer, Some(56));
    assert_eq!((backup.index_buffer_format, backup.index_buffer_offset), (42, 8));
    assert_eq!(backup.vertex_buffer, Some(57));
    assert_eq!((backup.vertex_buffer_stride, backup.vertex_buffer_offset), (32, 16));
    assert_eq!(backup.input_layout, Some(58));
}

#[test]
fn restoring_sets_what_was_saved() {
    let expected: Vec<Command> = vec![
        ContextCall::RsSetScissorRects { rects: rects(3).to_vec() },
        ContextCall::RsSetViewports { viewports: viewports(4).to_vec() },
        ContextCall::RsSetState { state: Some(50) },
        ContextCall::OmSetBlendState {
            state: Some(51),
            factor: [1, 2, 3, 4],
            sample_mask: 0xFFFF_FFFF,
        },
        ContextCall::OmSetDepthStencilState { state: Some(52), stencil_ref: 9 },
        ContextCall::PsSetShaderResources { slot: 0, views: vec![] },
        ContextCall::PsSetSamplers { slot: 0, samplers: vec![] },
        ContextCall::PsSetShader {
            shader: Some(53),
            class_instances: Some(vec![Some(60), Some(61)]),
        },
        ContextCall::VsSetShader { shader: Some(54), class_instances: Some(vec![]) },
        ContextCall::VsSetConstantBuffers { slot: 0, buffers: vec![] },
        ContextCall::GsSetShader { shader: Some(55), class_instances: Some(vec![Some(70)]) },
        ContextCall::IaSetPrimitiveTopology { topology: 4 },
        ContextCall::IaSetIndexBuffer { buffer: Some(56), format: 42, offset: 8 },
        ContextCall::IaSetVertexBuffers { slot: 0, buffer: Some(57), stride: 32, offset: 16 },
        ContextCall::IaSetInputLayout { layout: Some(58) },
    ];
    assert_eq!(StateBackup::backup(answers()).restore(), expected);
}

#[test]
fn restoring_a_blank_backup_sets_no_shaders() {
    let calls = StateBackup::default().restore();
    assert_eq!(calls.len(), 11);
    for call in calls {
        assert!(!matches!(
            call,
            ContextCall::PsSetShader { .. }
                | ContextCall::VsSetShader { .. }
                | ContextCall::GsSetShader { .. }
                | ContextCall::IaSetInputLayout { .. }
        ));
    }
}

#[test]
fn a_later_answer_takes_the_place_of_an_earlier_one() {
    let mut backup = StateBackup::backup(answers());
    backup.record(Answer::InputLayout { layout: None });
    backup.record(Answer::RasterizerState { state: Some(99) });
    assert_eq!(backup.input_layout, None);
    assert_eq!(backup.rasterizer_state, Some(99));
    assert_eq!(backup.vertex_buffer, Some(57));
    let twice = StateBackup::backup(vec![
        Answer::PrimitiveTopology { topology: 1 },
        Answer::PrimitiveTopology { topology: 2 },
    ]);
    assert_eq!(twice.topology, 2);
}

#[test]
fn too_many_class_instances_cannot_be_restored() {
    let mut backup = StateBackup::default();
    assert!(backup.can_restore());
    backup.gs_instances_count = 257;
    assert!(backup.can_restore());
    backup.gs_shader = Some(1);
    assert!(!backup.can_restore());
    backup.gs_instances_count = 256;
    assert!(backup.can_restore());
    assert_eq!(backup.restore().len(), 12);
}
