use imgui_dx11_renderer::d3d11::{
    BlendDesc, BufferDesc, DepthStencilDesc, InputElementDesc, RasterizerDesc,
    RenderTargetBlendDesc, SamplerDesc, ShaderResourceViewDesc, StencilOpDesc, Texture2dDesc,
    VertexConstantBuffer,
};
use imgui_dx11_renderer::setup::{RENDERER_HAS_VTX_OFFSET, VERTEX_CONSTANT_BUFFER_SIZE};
use imgui_dx11_renderer::{Renderer, Setup, SetupAction, SetupEvent, SetupStep, FONT_TEX_ID};

fn created(object: u64) -> SetupEvent {
    SetupEvent::Created { object: Ok(object) }
}

fn events() -> Vec<SetupEvent> {
    vec![
        SetupEvent::Begin,
        created(10),
        created(11),
        created(12),
        created(13),
        created(14),
        created(15),
        created(16),
        SetupEvent::FontTextureBuilt { width: 512, height: 64 },
        created(17),
        created(18),
        SetupEvent::Done,
        created(19),
        created(20),
        created(21),
        created(22),
        SetupEvent::Done,
    ]
}

fn create() -> (Vec<SetupAction>, Renderer) {
    let mut setup = Setup::new(1);
    let mut actions = Vec::new();
    for event in events() {
        match Renderer::new(&mut setup, "1.2.3", event) {
            SetupStep::Finish { result: Ok(renderer) } => return (actions, renderer),
            action => actions.push(action),
        }
    }
    panic!("the creation did not end");
}

#[test]
fn a_creation_asks_for_everything_in_order() {
    let (actions, _) = create();
    assert_eq!(actions.len(), 16);
    assert!(matches!(actions[0], SetupStep::CreateVertexShader));
    match &actions[1] {
        SetupStep::CreateInputLayout { elements } => {
            let element = |name, format, offset| InputElementDesc {
                semantic_name: name,
                semantic_index: 0,
                format,
                input_slot: 0,
                aligned_byte_offset: offset,
                input_slot_class: 0,
                instance_data_step_rate: 0,
            };
            assert_eq!(
                elements,
                &[element("POSITION", 16, 0), element("TEXCOORD", 16, 8), element("COLOR", 28, 16)]
            );
        },
        other => panic!("{:?}", other),
    }
    match &actions[2] {
        SetupStep::CreateBuffer { desc } => assert_eq!(
            desc,
            &BufferDesc {
                byte_width: 64,
                usage: 2,
                bind_flags: 4,
                cpu_access_flags: 65536,
                misc_flags: 0,
                structure_byte_stride: 0,
            }
        ),
        other => panic!("{:?}", other),
    }
    assert!(matches!(actions[3], SetupStep::CreatePixelShader));
    assert!(matches!(actions[4], SetupStep::CreateBlendState { .. }));
    assert!(matches!(actions[5], SetupStep::CreateRasterizerState { .. }));
    assert!(matches!(actions[6], SetupStep::CreateDepthStencilState { .. }));
    assert!(matches!(actions[7], SetupStep::BuildFontTexture));
    match &actions[8] {
        SetupStep::CreateTexture2d { desc, row_pitch } => {
            assert_eq!((desc.width, desc.height, *row_pitch), (512, 64, 2048));
        },
        other => panic!("{:?}", other),
    }
    match &actions[9] {
        SetupStep::CreateShaderResourceView { texture, .. } => assert_eq!(*texture, 17),
        other => panic!("{:?}", other),
    }
    match &actions[10] {
        SetupStep::SetFontTextureId { texture_id } => assert_eq!(*texture_id, !0),
        other => panic!("{:?}", other),
    }
    assert!(matches!(actions[11], SetupStep::CreateSamplerState { .. }));
    match &actions[12] {
        SetupStep::CreateBuffer { desc } => assert_eq!((desc.byte_width, desc.bind_flags), (100000, 1)),
        other => panic!("{:?}", other),
    }
    match &actions[13] {
        SetupStep::CreateBuffer { desc } => assert_eq!((desc.byte_width, desc.bind_flags), (20000, 2)),
        other => panic!("{:?}", other),
    }
    assert!(matches!(actions[14], SetupStep::GetImmediateContext));
    match &actions[15] {
        SetupStep::Announce { backend_flags, name } => {
            assert_eq!(*backend_flags, 8);
            assert_eq!(
                *backend_flags,
                imgui::BackendFlags::RENDERER_HAS_VTX_OFFSET.bits()
            );
            assert_eq!(name, "imgui_dx11_renderer@1.2.3");
        },
        other => panic!("{:?}", other),
    }
}

#[test]
fn a_new_renderer_has_no_textures() {
    let (_, renderer) = create();
    for id in [0usize, 1, 2, FONT_TEX_ID] {
        assert_eq!(renderer.textures().get(imgui::TextureId::from(id)), None);
    }
}

#[test]
fn every_failed_creation_ends_with_its_error() {
    let all = events();
    for failing in 0..all.len() {
        if !matches!(all[failing], SetupEvent::Created { .. }) {
            continue;
        }
        let mut setup = Setup::new(1);
        for event in &all[..failing] {
            let action = Renderer::new(&mut setup, "0.0.0", *event);
            assert!(!matches!(action, SetupStep::Finish { .. }));
        }
        let code: i32 = -(failing as i32) - 1;
        let event = SetupEvent::Created { object: Err(code) };
        match Renderer::new(&mut setup, "0.0.0", event) {
            SetupStep::Finish { result: Err(error) } => assert_eq!(error, code),
            other => panic!("{:?}", other),
        }
    }
}

#[test]
fn state_objects_blend_and_do_not_test() {
    let (blend, rasterizer, depth_stencil) = Renderer::create_device_objects();
    let target = RenderTargetBlendDesc {
        blend_enable: true,
        src_blend: 5,
        dest_blend: 6,
        blend_op: 1,
        src_blend_alpha: 2,
        dest_blend_alpha: 6,
        blend_op_alpha: 1,
        render_target_write_mask: 15,
    };
    assert_eq!(
        blend,
        BlendDesc {
            alpha_to_coverage_enable: false,
            independent_blend_enable: true,
            render_target: [target; 8],
        }
    );
    assert_eq!(
        rasterizer,
        RasterizerDesc {
            fill_mode: 3,
            cull_mode: 1,
            front_counter_clockwise: false,
            depth_bias: 0,
            depth_bias_clamp: 0,
            slope_scaled_depth_bias: 0,
            depth_clip_enable: true,
            scissor_enable: true,
            multisample_enable: false,
            antialiased_line_enable: false,
        }
    );
    let op = StencilOpDesc {
        stencil_fail_op: 1,
        stencil_depth_fail_op: 1,
        stencil_pass_op: 1,
        stencil_func: 8,
    };
    assert_eq!(
        depth_stencil,
        DepthStencilDesc {
            depth_enable: false,
            depth_write_mask: 1,
            depth_func: 8,
            stencil_enable: false,
            stencil_read_mask: 0,
            stencil_write_mask: 0,
            front_face: op,
            back_face: op,
        }
    );
}

#[test]
fn the_font_texture_is_described() {
    let font = Renderer::create_font_texture(256, 128);
    assert_eq!(
        font.texture,
        Texture2dDesc {
            width: 256,
            height: 128,
            mip_levels: 1,
            array_size: 1,
            format: 28,
            sample_count: 1,
            sample_quality: 0,
            usage: 0,
            bind_flags: 8,
            cpu_access_flags: 0,
            misc_flags: 0,
        }
    );
    assert_eq!(font.row_pitch, 1024);
    assert_eq!(
        font.view,
        ShaderResourceViewDesc {
            format: 28,
            view_dimension: 4,
            most_detailed_mip: 0,
            mip_levels: 1,
        }
    );
    assert_eq!(font.texture_id, usize::MAX);
    assert_eq!(
        font.sampler,
        SamplerDesc {
            filter: 21,
            address_u: 1,
            address_v: 1,
            address_w: 1,
            mip_lod_bias: 0,
            max_anisotropy: 0,
            comparison_func: 8,
            border_color: [0; 4],
            min_lod: 0,
            max_lod: 0,
        }
    );
}

#[test]
fn vertex_layout_matches_the_vertex() {
    let (elements, constants) = Renderer::create_vertex_shader();
    let vertex = imgui::DrawVert { pos: [0.0; 2], uv: [0.0; 2], col: [0; 4] };
    let pos = std::mem::size_of_val(&vertex.pos);
    let uv = std::mem::size_of_val(&vertex.uv);
    let col = std::mem::size_of_val(&vertex.col);
    assert_eq!(elements[0].aligned_byte_offset, 0);
    assert_eq!(elements[1].aligned_byte_offset as usize, pos);
    assert_eq!(elements[2].aligned_byte_offset as usize, pos + uv);
    assert_eq!(std::mem::size_of::<imgui::DrawVert>(), pos + uv + col);
    assert_eq!(constants.byte_width, VERTEX_CONSTANT_BUFFER_SIZE);
    assert_eq!(VERTEX_CONSTANT_BUFFER_SIZE as usize, std::mem::size_of::<VertexConstantBuffer>());
    assert_eq!(RENDERER_HAS_VTX_OFFSET, 8);
}
