//! Creating a renderer, step by step.
//!
//! As for a frame, each step takes what the device answered to the last action and says which
//! action is next; the creation ends with the action `Finish`.

use vstd::pervasive::unreached;
use vstd::prelude::*;

use crate::buffer::{index_buffer_plan, vertex_buffer_plan, Buffer, BufferView};
use crate::d3d11::{
    BlendDesc, BufferDesc, DepthStencilDesc, InputElementDesc, RasterizerDesc,
    RenderTargetBlendDesc, SamplerDesc, ShaderResourceViewDesc, StencilOpDesc, Texture2dDesc,
    D3D11_BIND_CONSTANT_BUFFER, D3D11_BIND_SHADER_RESOURCE, D3D11_BLEND_INV_SRC_ALPHA,
    D3D11_BLEND_ONE, D3D11_BLEND_OP_ADD, D3D11_BLEND_SRC_ALPHA, D3D11_COLOR_WRITE_ENABLE_ALL,
    D3D11_COMPARISON_ALWAYS, D3D11_CPU_ACCESS_WRITE, D3D11_CULL_NONE, D3D11_DEPTH_WRITE_MASK_ALL,
    D3D11_FILL_SOLID, D3D11_FILTER_MIN_MAG_MIP_LINEAR, D3D11_INPUT_PER_VERTEX_DATA,
    D3D11_SRV_DIMENSION_TEXTURE2D, D3D11_STENCIL_OP_KEEP, D3D11_TEXTURE_ADDRESS_WRAP,
    D3D11_USAGE_DEFAULT, D3D11_USAGE_DYNAMIC, DXGI_FORMAT_R32G32_FLOAT, DXGI_FORMAT_R8G8B8A8_UNORM,
    F32_ZERO,
};
use crate::renderer::{DeviceObjects, Renderer, RendererView, FONT_TEX_ID};
use crate::steps::{lemma_fold_add, lemma_fold_first, lemma_fold_five};

verus! {

/// The size of the constants of the vertex shader in bytes
pub const VERTEX_CONSTANT_BUFFER_SIZE: u32 = 64;

/// The flag by which a renderer says that it supports vertex offsets
pub const RENDERER_HAS_VTX_OFFSET: u32 = 8;

/// Calls `imgui::BackendFlags::bits` on the flag `RENDERER_HAS_VTX_OFFSET`, which is the bit with
/// the value eight.
#[verifier::external_body]
fn vtx_offset_flag() -> (flag: u32)
    ensures
        flag == RENDERER_HAS_VTX_OFFSET,
{
    imgui::BackendFlags::RENDERER_HAS_VTX_OFFSET.bits()
}

/// A member of a vertex.
pub open spec fn vertex_element(name: &'static str, format: i32, offset: u32) -> InputElementDesc {
    InputElementDesc {
        semantic_name: name,
        semantic_index: 0,
        format,
        input_slot: 0,
        aligned_byte_offset: offset,
        input_slot_class: D3D11_INPUT_PER_VERTEX_DATA,
        instance_data_step_rate: 0,
    }
}

/// The members of a vertex: a position and a texture coordinate of two single-precision numbers
/// each, and a color of four bytes.
pub open spec fn vertex_layout() -> [InputElementDesc; 3] {
    [
        vertex_element("POSITION", DXGI_FORMAT_R32G32_FLOAT, 0),
        vertex_element("TEXCOORD", DXGI_FORMAT_R32G32_FLOAT, 8),
        vertex_element("COLOR", DXGI_FORMAT_R8G8B8A8_UNORM, 16),
    ]
}

/// The buffer that holds the constants of the vertex shader.
pub open spec fn constant_buffer_desc() -> BufferDesc {
    BufferDesc {
        byte_width: VERTEX_CONSTANT_BUFFER_SIZE,
        usage: D3D11_USAGE_DYNAMIC,
        bind_flags: D3D11_BIND_CONSTANT_BUFFER,
        cpu_access_flags: D3D11_CPU_ACCESS_WRITE,
        misc_flags: 0,
        structure_byte_stride: 0,
    }
}

/// Blending over what is there, by the alpha of the source.
pub open spec fn target_blend_desc() -> RenderTargetBlendDesc {
    RenderTargetBlendDesc {
        blend_enable: true,
        src_blend: D3D11_BLEND_SRC_ALPHA,
        dest_blend: D3D11_BLEND_INV_SRC_ALPHA,
        blend_op: D3D11_BLEND_OP_ADD,
        src_blend_alpha: D3D11_BLEND_ONE,
        dest_blend_alpha: D3D11_BLEND_INV_SRC_ALPHA,
        blend_op_alpha: D3D11_BLEND_OP_ADD,
        render_target_write_mask: D3D11_COLOR_WRITE_ENABLE_ALL,
    }
}

/// The same blending for every render target.
pub open spec fn blend_desc() -> BlendDesc {
    let target = target_blend_desc();
    BlendDesc {
        alpha_to_coverage_enable: false,
        independent_blend_enable: true,
        render_target: [target, target, target, target, target, target, target, target],
    }
}

/// Filled triangles of either orientation, clipped by depth and by the scissor rectangles.
pub open spec fn rasterizer_desc() -> RasterizerDesc {
    RasterizerDesc {
        fill_mode: D3D11_FILL_SOLID,
        cull_mode: D3D11_CULL_NONE,
        front_counter_clockwise: false,
        depth_bias: 0,
        depth_bias_clamp: F32_ZERO,
        slope_scaled_depth_bias: F32_ZERO,
        depth_clip_enable: true,
        scissor_enable: true,
        multisample_enable: false,
        antialiased_line_enable: false,
    }
}

/// A stencil operation that changes nothing.
pub open spec fn stencil_op_desc() -> StencilOpDesc {
    StencilOpDesc {
        stencil_fail_op: D3D11_STENCIL_OP_KEEP,
        stencil_depth_fail_op: D3D11_STENCIL_OP_KEEP,
        stencil_pass_op: D3D11_STENCIL_OP_KEEP,
        stencil_func: D3D11_COMPARISON_ALWAYS,
    }
}

/// No test of the depth or the stencil.
pub open spec fn depth_stencil_desc() -> DepthStencilDesc {
    DepthStencilDesc {
        depth_enable: false,
        depth_write_mask: D3D11_DEPTH_WRITE_MASK_ALL,
        depth_func: D3D11_COMPARISON_ALWAYS,
        stencil_enable: false,
        stencil_read_mask: 0,
        stencil_write_mask: 0,
        front_face: stencil_op_desc(),
        back_face: stencil_op_desc(),
    }
}

/// The objects that make the font texture usable
#[derive(Clone, Copy, Debug, PartialEq, Eq)]
pub struct FontTexture {
    pub texture: Texture2dDesc,
    /// The number of bytes of a row of the texture
    pub row_pitch: u32,
    pub view: ShaderResourceViewDesc,
    pub texture_id: usize,
    pub sampler: SamplerDesc,
}

/// A texture of the given size with four bytes for a texel and no mipmaps, a view of all of it, and
/// a sampler that interpolates and repeats it.
pub open spec fn font_texture(width: u32, height: u32) -> FontTexture {
    FontTexture {
        texture: Texture2dDesc {
            width,
            height,
            mip_levels: 1,
            array_size: 1,
            format: DXGI_FORMAT_R8G8B8A8_UNORM,
            sample_count: 1,
            sample_quality: 0,
            usage: D3D11_USAGE_DEFAULT,
            bind_flags: D3D11_BIND_SHADER_RESOURCE,
            cpu_access_flags: 0,
            misc_flags: 0,
        },
        row_pitch: (width * 4) as u32,
        view: font_view_desc(),
        texture_id: FONT_TEX_ID,
        sampler: font_sampler_desc(),
    }
}

/// The view of the font texture.
pub open spec fn font_view_desc() -> ShaderResourceViewDesc {
    ShaderResourceViewDesc {
        format: DXGI_FORMAT_R8G8B8A8_UNORM,
        view_dimension: D3D11_SRV_DIMENSION_TEXTURE2D,
        most_detailed_mip: 0,
        mip_levels: 1,
    }
}

/// The sampler of the font texture.
pub open spec fn font_sampler_desc() -> SamplerDesc {
    SamplerDesc {
        filter: D3D11_FILTER_MIN_MAG_MIP_LINEAR,
        address_u: D3D11_TEXTURE_ADDRESS_WRAP,
        address_v: D3D11_TEXTURE_ADDRESS_WRAP,
        address_w: D3D11_TEXTURE_ADDRESS_WRAP,
        mip_lod_bias: F32_ZERO,
        max_anisotropy: 0,
        comparison_func: D3D11_COMPARISON_ALWAYS,
        border_color: [F32_ZERO, F32_ZERO, F32_ZERO, F32_ZERO],
        min_lod: F32_ZERO,
        max_lod: F32_ZERO,
    }
}

/// The name by which a renderer of the given version presents itself.
pub open spec fn renderer_name(version: Seq<char>) -> Seq<char> {
    "imgui_dx11_renderer@"@ + version
}

impl Renderer {
    /// Describes the input layout and the constant buffer that go with the vertex shader.
    pub fn create_vertex_shader() -> (objects: ([InputElementDesc; 3], BufferDesc))
        ensures
            objects == (vertex_layout(), constant_buffer_desc()),
    {
        let layout = [
            InputElementDesc {
                semantic_name: "POSITION",
                semantic_index: 0,
                format: DXGI_FORMAT_R32G32_FLOAT,
                input_slot: 0,
                aligned_byte_offset: 0,
                input_slot_class: D3D11_INPUT_PER_VERTEX_DATA,
                instance_data_step_rate: 0,
            },
            InputElementDesc {
                semantic_name: "TEXCOORD",
                semantic_index: 0,
                format: DXGI_FORMAT_R32G32_FLOAT,
                input_slot: 0,
                aligned_byte_offset: 8,
                input_slot_class: D3D11_INPUT_PER_VERTEX_DATA,
                instance_data_step_rate: 0,
            },
            InputElementDesc {
                semantic_name: "COLOR",
                semantic_index: 0,
                format: DXGI_FORMAT_R8G8B8A8_UNORM,
                input_slot: 0,
                aligned_byte_offset: 16,
                input_slot_class: D3D11_INPUT_PER_VERTEX_DATA,
                instance_data_step_rate: 0,
            },
        ];
        let desc = BufferDesc {
            byte_width: VERTEX_CONSTANT_BUFFER_SIZE,
            usage: D3D11_USAGE_DYNAMIC,
            bind_flags: D3D11_BIND_CONSTANT_BUFFER,
            cpu_access_flags: D3D11_CPU_ACCESS_WRITE,
            misc_flags: 0,
            structure_byte_stride: 0,
        };
        assert(layout =~= vertex_layout());
        (layout, desc)
    }

    /// Describes the state objects of the pipeline.
    pub fn create_device_objects() -> (objects: (BlendDesc, RasterizerDesc, DepthStencilDesc))
        ensures
            objects == (blend_desc(), rasterizer_desc(), depth_stencil_desc()),
    {
        let target = RenderTargetBlendDesc {
            blend_enable: true,
            src_blend: D3D11_BLEND_SRC_ALPHA,
            dest_blend: D3D11_BLEND_INV_SRC_ALPHA,
            blend_op: D3D11_BLEND_OP_ADD,
            src_blend_alpha: D3D11_BLEND_ONE,
            dest_blend_alpha: D3D11_BLEND_INV_SRC_ALPHA,
            blend_op_alpha: D3D11_BLEND_OP_ADD,
            render_target_write_mask: D3D11_COLOR_WRITE_ENABLE_ALL,
        };
        let blend = BlendDesc {
            alpha_to_coverage_enable: false,
            independent_blend_enable: true,
            render_target: [target, target, target, target, target, target, target, target],
        };
        let rasterizer = RasterizerDesc {
            fill_mode: D3D11_FILL_SOLID,
            cull_mode: D3D11_CULL_NONE,
            front_counter_clockwise: false,
            depth_bias: 0,
            depth_bias_clamp: F32_ZERO,
            slope_scaled_depth_bias: F32_ZERO,
            depth_clip_enable: true,
            scissor_enable: true,
            multisample_enable: false,
            antialiased_line_enable: false,
        };
        let stencil_op = StencilOpDesc {
            stencil_fail_op: D3D11_STENCIL_OP_KEEP,
            stencil_depth_fail_op: D3D11_STENCIL_OP_KEEP,
            stencil_pass_op: D3D11_STENCIL_OP_KEEP,
            stencil_func: D3D11_COMPARISON_ALWAYS,
        };
        let depth_stencil = DepthStencilDesc {
            depth_enable: false,
            depth_write_mask: D3D11_DEPTH_WRITE_MASK_ALL,
            depth_func: D3D11_COMPARISON_ALWAYS,
            stencil_enable: false,
            stencil_read_mask: 0,
            stencil_write_mask: 0,
            front_face: stencil_op,
            back_face: stencil_op,
        };
        assert(blend.render_target =~= blend_desc().render_target);
        (blend, rasterizer, depth_stencil)
    }

    /// Describes the objects that make a font texture of the given size usable.
    pub fn create_font_texture(width: u32, height: u32) -> (font: FontTexture)
        requires
            width * 4 <= u32::MAX,
        ensures
            font == font_texture(width, height),
            font.texture.width == width,
            font.texture.height == height,
            font.row_pitch == 4 * width,
    {
        let texture = Texture2dDesc {
            width,
            height,
            mip_levels: 1,
            array_size: 1,
            format: DXGI_FORMAT_R8G8B8A8_UNORM,
            sample_count: 1,
            sample_quality: 0,
            usage: D3D11_USAGE_DEFAULT,
            bind_flags: D3D11_BIND_SHADER_RESOURCE,
            cpu_access_flags: 0,
            misc_flags: 0,
        };
        let view = ShaderResourceViewDesc {
            format: DXGI_FORMAT_R8G8B8A8_UNORM,
            view_dimension: D3D11_SRV_DIMENSION_TEXTURE2D,
            most_detailed_mip: 0,
            mip_levels: texture.mip_levels,
        };
        let sampler = SamplerDesc {
            filter: D3D11_FILTER_MIN_MAG_MIP_LINEAR,
            address_u: D3D11_TEXTURE_ADDRESS_WRAP,
            address_v: D3D11_TEXTURE_ADDRESS_WRAP,
            address_w: D3D11_TEXTURE_ADDRESS_WRAP,
            mip_lod_bias: F32_ZERO,
            max_anisotropy: 0,
            comparison_func: D3D11_COMPARISON_ALWAYS,
            border_color: [F32_ZERO, F32_ZERO, F32_ZERO, F32_ZERO],
            min_lod: F32_ZERO,
            max_lod: F32_ZERO,
        };
        FontTexture {
            texture,
            row_pitch: texture.width * 4,
            view,
            texture_id: FONT_TEX_ID,
            sampler,
        }
    }
}

/// What is to be done next for the creation of a renderer, over the types of the name `N` and of
/// the renderer `R`. The event is `Created` where nothing else is said.
#[derive(Debug)]
#[allow(inconsistent_fields)]
pub enum SetupStep<N, R> {
    CreateVertexShader,
    /// Create an input layout for the vertex shader.
    CreateInputLayout { elements: [InputElementDesc; 3] },
    CreateBuffer { desc: BufferDesc },
    CreatePixelShader,
    CreateBlendState { desc: BlendDesc },
    CreateRasterizerState { desc: RasterizerDesc },
    CreateDepthStencilState { desc: DepthStencilDesc },
    /// Build the texture of the font atlas with four bytes for a texel. The event is
    /// `FontTextureBuilt`.
    BuildFontTexture,
    /// Create a texture that holds the texels of the font atlas.
    CreateTexture2d { desc: Texture2dDesc, row_pitch: u32 },
    CreateShaderResourceView { texture: u64, desc: ShaderResourceViewDesc },
    /// Give the font atlas its texture id. The event is `Done`.
    SetFontTextureId { texture_id: usize },
    CreateSamplerState { desc: SamplerDesc },
    GetImmediateContext,
    /// Raise flags of the backend, and set the name of the renderer. The event is `Done`.
    Announce { backend_flags: u32, name: N },
    /// Return the renderer, or an error.
    Finish { result: Result<R, i32> },
}

/// An action as it is handed out
pub type SetupAction = SetupStep<String, Renderer>;

/// An action as contracts speak of it
pub type SetupActionView = SetupStep<Seq<char>, RendererView>;

impl View for SetupStep<String, Renderer> {
    type V = SetupActionView;

    open spec fn view(&self) -> SetupActionView {
        match *self {
            SetupStep::CreateVertexShader => SetupStep::CreateVertexShader,
            SetupStep::CreateInputLayout { elements } => SetupStep::CreateInputLayout { elements },
            SetupStep::CreateBuffer { desc } => SetupStep::CreateBuffer { desc },
            SetupStep::CreatePixelShader => SetupStep::CreatePixelShader,
            SetupStep::CreateBlendState { desc } => SetupStep::CreateBlendState { desc },
            SetupStep::CreateRasterizerState { desc } => SetupStep::CreateRasterizerState { desc },
            SetupStep::CreateDepthStencilState { desc } => SetupStep::CreateDepthStencilState {
                desc,
            },
            SetupStep::BuildFontTexture => SetupStep::BuildFontTexture,
            SetupStep::CreateTexture2d { desc, row_pitch } => SetupStep::CreateTexture2d {
                desc,
                row_pitch,
            },
            SetupStep::CreateShaderResourceView { texture, desc } => {
                SetupStep::CreateShaderResourceView { texture, desc }
            },
            SetupStep::SetFontTextureId { texture_id } => SetupStep::SetFontTextureId {
                texture_id,
            },
            SetupStep::CreateSamplerState { desc } => SetupStep::CreateSamplerState { desc },
            SetupStep::GetImmediateContext => SetupStep::GetImmediateContext,
            SetupStep::Announce { backend_flags, name } => SetupStep::Announce {
                backend_flags,
                name: name@,
            },
            SetupStep::Finish { result: Ok(renderer) } => SetupStep::Finish {
                result: Ok(renderer@),
            },
            SetupStep::Finish { result: Err(code) } => SetupStep::Finish { result: Err(code) },
        }
    }
}

/// What happened since the last step
#[derive(Clone, Copy, Debug, PartialEq, Eq)]
pub enum SetupEvent {
    /// The creation begins.
    Begin,
    /// An object was created, or its creation failed with an error.
    Created { object: Result<u64, i32> },
    /// The texture of the font atlas was built, and has this size.
    FontTextureBuilt { width: u32, height: u32 },
    /// What the last action asked for was done.
    Done,
}

/// How far the creation of a renderer is
#[derive(Clone, Copy, Debug, PartialEq, Eq)]
pub enum Stage {
    Ready,
    VertexShader,
    InputLayout,
    ConstantBuffer,
    PixelShader,
    BlendState,
    RasterizerState,
    DepthStencilState,
    FontAtlas,
    FontTexture { font: FontTexture },
    FontView { font: FontTexture },
    FontTextureId { font: FontTexture },
    FontSampler,
    VertexBuffer { len: usize },
    IndexBuffer { len: usize },
    Context,
    Announcement,
    Finished,
}

/// A renderer that is being created: how far it is, and the objects that there are so far
#[derive(Debug)]
pub struct Setup {
    pub stage: Stage,
    pub objects: DeviceObjects,
    pub vertex_buffer: Buffer,
    pub index_buffer: Buffer,
}

/// What a renderer that is being created is
pub struct SetupView {
    pub stage: Stage,
    pub objects: DeviceObjects,
    pub vertex_buffer: BufferView,
    pub index_buffer: BufferView,
}

impl View for Setup {
    type V = SetupView;

    open spec fn view(&self) -> SetupView {
        SetupView {
            stage: self.stage,
            objects: self.objects,
            vertex_buffer: self.vertex_buffer@,
            index_buffer: self.index_buffer@,
        }
    }
}

impl SetupView {
    /// Whether an event can follow the last action. The number of bytes of a row of the font
    /// texture has to be a 32-bit number.
    pub open spec fn expects(self, event: SetupEvent) -> bool {
        match self.stage {
            Stage::Ready => event is Begin,
            Stage::FontAtlas => event matches SetupEvent::FontTextureBuilt { width, .. } && width
                * 4 <= u32::MAX,
            Stage::FontTextureId { .. } => event is Done,
            Stage::Announcement => event is Done,
            Stage::Finished => false,
            _ => event is Created,
        }
    }
}

/// The objects of a renderer of which only the device exists.
pub open spec fn no_objects(device: u64) -> DeviceObjects {
    DeviceObjects {
        device,
        context: 0,
        vertex_shader: 0,
        pixel_shader: 0,
        input_layout: 0,
        constant_buffer: 0,
        blend_state: 0,
        rasterizer_state: 0,
        depth_stencil_state: 0,
        font_resource_view: 0,
        font_sampler: 0,
    }
}

impl Setup {
    /// The creation of a renderer for a device, which has not begun.
    pub fn new(device: u64) -> (setup: Self)
        ensures
            setup@ == (SetupView {
                stage: Stage::Ready,
                objects: no_objects(device),
                vertex_buffer: BufferView { object: 0, len: 0 },
                index_buffer: BufferView { object: 0, len: 0 },
            }),
    {
        Setup {
            stage: Stage::Ready,
            objects: DeviceObjects {
                device,
                context: 0,
                vertex_shader: 0,
                pixel_shader: 0,
                input_layout: 0,
                constant_buffer: 0,
                blend_state: 0,
                rasterizer_state: 0,
                depth_stencil_state: 0,
                font_resource_view: 0,
                font_sampler: 0,
            },
            vertex_buffer: Buffer::new(0, 0),
            index_buffer: Buffer::new(0, 0),
        }
    }
}

/// What was created so far, with the object that the current stage waits for.
pub open spec fn with_object(setup: SetupView, object: u64) -> SetupView {
    match setup.stage {
        Stage::VertexShader => SetupView {
            objects: DeviceObjects { vertex_shader: object, ..setup.objects },
            ..setup
        },
        Stage::InputLayout => SetupView {
            objects: DeviceObjects { input_layout: object, ..setup.objects },
            ..setup
        },
        Stage::ConstantBuffer => SetupView {
            objects: DeviceObjects { constant_buffer: object, ..setup.objects },
            ..setup
        },
        Stage::PixelShader => SetupView {
            objects: DeviceObjects { pixel_shader: object, ..setup.objects },
            ..setup
        },
        Stage::BlendState => SetupView {
            objects: DeviceObjects { blend_state: object, ..setup.objects },
            ..setup
        },
        Stage::RasterizerState => SetupView {
            objects: DeviceObjects { rasterizer_state: object, ..setup.objects },
            ..setup
        },
        Stage::DepthStencilState => SetupView {
            objects: DeviceObjects { depth_stencil_state: object, ..setup.objects },
            ..setup
        },
        Stage::FontView { .. } => SetupView {
            objects: DeviceObjects { font_resource_view: object, ..setup.objects },
            ..setup
        },
        Stage::FontSampler => SetupView {
            objects: DeviceObjects { font_sampler: object, ..setup.objects },
            ..setup
        },
        Stage::VertexBuffer { len } => SetupView {
            vertex_buffer: BufferView { object, len },
            ..setup
        },
        Stage::IndexBuffer { len } => SetupView {
            index_buffer: BufferView { object, len },
            ..setup
        },
        Stage::Context => SetupView {
            objects: DeviceObjects { context: object, ..setup.objects },
            ..setup
        },
        _ => setup,
    }
}

/// The stage that follows a stage, and the action that leads there, once the event is not an error.
pub open spec fn next_stage(
    setup: SetupView,
    version: Seq<char>,
    event: SetupEvent,
) -> (Stage, SetupActionView) {
    match setup.stage {
        Stage::Ready => (Stage::VertexShader, SetupStep::CreateVertexShader),
        Stage::VertexShader => (
            Stage::InputLayout,
            SetupStep::CreateInputLayout { elements: vertex_layout() },
        ),
        Stage::InputLayout => (
            Stage::ConstantBuffer,
            SetupStep::CreateBuffer { desc: constant_buffer_desc() },
        ),
        Stage::ConstantBuffer => (Stage::PixelShader, SetupStep::CreatePixelShader),
        Stage::PixelShader => (
            Stage::BlendState,
            SetupStep::CreateBlendState { desc: blend_desc() },
        ),
        Stage::BlendState => (
            Stage::RasterizerState,
            SetupStep::CreateRasterizerState { desc: rasterizer_desc() },
        ),
        Stage::RasterizerState => (
            Stage::DepthStencilState,
            SetupStep::CreateDepthStencilState { desc: depth_stencil_desc() },
        ),
        Stage::DepthStencilState => (Stage::FontAtlas, SetupStep::BuildFontTexture),
        Stage::FontAtlas => {
            let font = font_texture(
                event->FontTextureBuilt_width,
                event->FontTextureBuilt_height,
            );
            (
                Stage::FontTexture { font },
                SetupStep::CreateTexture2d { desc: font.texture, row_pitch: font.row_pitch },
            )
        },
        Stage::FontTexture { font } => (
            Stage::FontView { font },
            SetupStep::CreateShaderResourceView {
                texture: event->object->Ok_0,
                desc: font.view,
            },
        ),
        Stage::FontView { font } => (
            Stage::FontTextureId { font },
            SetupStep::SetFontTextureId { texture_id: font.texture_id },
        ),
        Stage::FontTextureId { font } => (
            Stage::FontSampler,
            SetupStep::CreateSamplerState { desc: font.sampler },
        ),
        Stage::FontSampler => {
            let plan = vertex_buffer_plan(0);
            (
                Stage::VertexBuffer { len: plan.len },
                SetupStep::CreateBuffer { desc: plan.desc },
            )
        },
        Stage::VertexBuffer { .. } => {
            let plan = index_buffer_plan(0);
            (Stage::IndexBuffer { len: plan.len }, SetupStep::CreateBuffer { desc: plan.desc })
        },
        Stage::IndexBuffer { .. } => (Stage::Context, SetupStep::GetImmediateContext),
        Stage::Context => (
            Stage::Announcement,
            SetupStep::Announce {
                backend_flags: RENDERER_HAS_VTX_OFFSET,
                name: renderer_name(version),
            },
        ),
        _ => (
            Stage::Finished,
            SetupStep::Finish {
                result: Ok(
                    RendererView {
                        objects: setup.objects,
                        vertex_buffer: setup.vertex_buffer,
                        index_buffer: setup.index_buffer,
                        textures: crate::textures::no_views(),
                        next_texture: 0,
                    },
                ),
            },
        ),
    }
}

/// The step that follows an event: where a creation failed, the end with its error.
pub open spec fn setup_step(
    setup: SetupView,
    version: Seq<char>,
    event: SetupEvent,
) -> (SetupView, SetupActionView) {
    match event {
        SetupEvent::Created { object: Err(code) } => (
            SetupView { stage: Stage::Finished, ..setup },
            SetupStep::Finish { result: Err(code) },
        ),
        _ => {
            let made = match event {
                SetupEvent::Created { object: Ok(object) } => with_object(setup, object),
                _ => setup,
            };
            let (stage, action) = next_stage(setup, version, event);
            (SetupView { stage, ..made }, action)
        },
    }
}

impl Renderer {
    /// Creates a new renderer step by step, with the given version in its name.
    ///
    /// Where the creation of an object fails, the creation of the renderer ends with its error at
    /// once.
    pub fn new(setup: &mut Setup, version: &str, event: SetupEvent) -> (action: SetupAction)
        requires
            old(setup)@.expects(event),
        ensures
            (final(setup)@, action@) == setup_step(old(setup)@, version@, event),
    {
        let object: u64 = match event {
            SetupEvent::Created { object: Err(code) } => {
                setup.stage = Stage::Finished;
                return SetupStep::Finish { result: Err(code) };
            },
            SetupEvent::Created { object: Ok(object) } => object,
            _ => 0,
        };
        match setup.stage {
            Stage::Ready => {
                setup.stage = Stage::VertexShader;
                SetupStep::CreateVertexShader
            },
            Stage::VertexShader => {
                setup.objects.vertex_shader = object;
                setup.stage = Stage::InputLayout;
                let (elements, _) = Renderer::create_vertex_shader();
                SetupStep::CreateInputLayout { elements }
            },
            Stage::InputLayout => {
                setup.objects.input_layout = object;
                setup.stage = Stage::ConstantBuffer;
                let (_, desc) = Renderer::create_vertex_shader();
                SetupStep::CreateBuffer { desc }
            },
            Stage::ConstantBuffer => {
                setup.objects.constant_buffer = object;
                setup.stage = Stage::PixelShader;
                SetupStep::CreatePixelShader
            },
            Stage::PixelShader => {
                setup.objects.pixel_shader = object;
                setup.stage = Stage::BlendState;
                let (desc, _, _) = Renderer::create_device_objects();
                SetupStep::CreateBlendState { desc }
            },
            Stage::BlendState => {
                setup.objects.blend_state = object;
                setup.stage = Stage::RasterizerState;
                let (_, desc, _) = Renderer::create_device_objects();
                SetupStep::CreateRasterizerState { desc }
            },
            Stage::RasterizerState => {
                setup.objects.rasterizer_state = object;
                setup.stage = Stage::DepthStencilState;
                let (_, _, desc) = Renderer::create_device_objects();
                SetupStep::CreateDepthStencilState { desc }
            },
            Stage::DepthStencilState => {
                setup.objects.depth_stencil_state = object;
                setup.stage = Stage::FontAtlas;
                SetupStep::BuildFontTexture
            },
            Stage::FontAtlas => {
                match event {
                    SetupEvent::FontTextureBuilt { width, height } => {
                        let font = Renderer::create_font_texture(width, height);
                        setup.stage = Stage::FontTexture { font };
                        SetupStep::CreateTexture2d {
                            desc: font.texture,
                            row_pitch: font.row_pitch,
                        }
                    },
                    _ => unreached(),
                }
            },
            Stage::FontTexture { font } => {
                setup.stage = Stage::FontView { font };
                SetupStep::CreateShaderResourceView { texture: object, desc: font.view }
            },
            Stage::FontView { font } => {
                setup.objects.font_resource_view = object;
                setup.stage = Stage::FontTextureId { font };
                SetupStep::SetFontTextureId { texture_id: font.texture_id }
            },
            Stage::FontTextureId { font } => {
                setup.stage = Stage::FontSampler;
                SetupStep::CreateSamplerState { desc: font.sampler }
            },
            Stage::FontSampler => {
                setup.objects.font_sampler = object;
                let plan = Renderer::create_vertex_buffer(0);
                setup.stage = Stage::VertexBuffer { len: plan.len };
                SetupStep::CreateBuffer { desc: plan.desc }
            },
            Stage::VertexBuffer { len } => {
                setup.vertex_buffer = Buffer::new(object, len);
                let plan = Renderer::create_index_buffer(0);
                setup.stage = Stage::IndexBuffer { len: plan.len };
                SetupStep::CreateBuffer { desc: plan.desc }
            },
            Stage::IndexBuffer { len } => {
                setup.index_buffer = Buffer::new(object, len);
                setup.stage = Stage::Context;
                SetupStep::GetImmediateContext
            },
            Stage::Context => {
                setup.objects.context = object;
                setup.stage = Stage::Announcement;
                let mut name: String = "imgui_dx11_renderer@".to_owned();
                name.append(version);
                SetupStep::Announce { backend_flags: vtx_offset_flag(), name }
            },
            Stage::Announcement => {
                setup.stage = Stage::Finished;
                let vertex_buffer = Buffer::new(
                    setup.vertex_buffer.get_buf(),
                    setup.vertex_buffer.len(),
                );
                let index_buffer = Buffer::new(
                    setup.index_buffer.get_buf(),
                    setup.index_buffer.len(),
                );
                SetupStep::Finish {
                    result: Ok(Renderer::assemble(setup.objects, vertex_buffer, index_buffer)),
                }
            },
            Stage::Finished => unreached(),
        }
    }
}

/// Where the creation of an object fails, the creation of the renderer ends with that error, and no
/// event can follow.
pub proof fn a_failure_ends_the_creation(
    setup: SetupView,
    version: Seq<char>,
    event: SetupEvent,
    code: i32,
)
    requires
        setup.expects(event),
        event == (SetupEvent::Created { object: Err(code) }),
    ensures
        setup_step(setup, version, event).1 == (SetupStep::<Seq<char>, RendererView>::Finish {
            result: Err(code),
        }),
        forall|next: SetupEvent|
            !(#[trigger] setup_step(setup, version, event).0.expects(next)),
{
}

/// A creation that is under way: what there is, and the actions so far
#[verifier::ext_equal]
pub struct SetupRun {
    pub setup: SetupView,
    pub actions: Seq<SetupActionView>,
}

/// A creation after one more event.
pub open spec fn advance_setup(
    before: SetupRun,
    version: Seq<char>,
    event: SetupEvent,
) -> SetupRun {
    let step = setup_step(before.setup, version, event);
    SetupRun { setup: step.0, actions: before.actions.push(step.1) }
}

/// The step function of a creation with the given version.
pub open spec fn creation_step(version: Seq<char>) -> spec_fn(SetupRun, SetupEvent) -> SetupRun {
    |before: SetupRun, event: SetupEvent| advance_setup(before, version, event)
}

/// A creation after a sequence of events.
pub open spec fn run_setup(
    start: SetupRun,
    version: Seq<char>,
    events: Seq<SetupEvent>,
) -> SetupRun {
    events.fold_left(start, creation_step(version))
}

/// The event that an object was created.
pub open spec fn created(object: u64) -> SetupEvent {
    SetupEvent::Created { object: Ok(object) }
}

/// The events up to the rasterizer state, where no creation fails.
pub open spec fn shader_events(objects: DeviceObjects) -> Seq<SetupEvent> {
    seq![
        SetupEvent::Begin,
        created(objects.vertex_shader),
        created(objects.input_layout),
        created(objects.constant_buffer),
        created(objects.pixel_shader),
        created(objects.blend_state),
        created(objects.rasterizer_state),
    ]
}

/// The actions up to the depth and stencil state.
pub open spec fn shader_actions() -> Seq<SetupActionView> {
    seq![
        SetupStep::CreateVertexShader,
        SetupStep::CreateInputLayout { elements: vertex_layout() },
        SetupStep::CreateBuffer { desc: constant_buffer_desc() },
        SetupStep::CreatePixelShader,
        SetupStep::CreateBlendState { desc: blend_desc() },
        SetupStep::CreateRasterizerState { desc: rasterizer_desc() },
        SetupStep::CreateDepthStencilState { desc: depth_stencil_desc() },
    ]
}

/// The events that follow up to the texture id of the font texture, where no creation fails.
pub open spec fn font_events(
    objects: DeviceObjects,
    width: u32,
    height: u32,
    texture: u64,
) -> Seq<SetupEvent> {
    seq![
        created(objects.depth_stencil_state),
        SetupEvent::FontTextureBuilt { width, height },
        created(texture),
        created(objects.font_resource_view),
        SetupEvent::Done,
    ]
}

/// The actions that make the font texture usable.
pub open spec fn font_actions(width: u32, height: u32, texture: u64) -> Seq<SetupActionView> {
    let font = font_texture(width, height);
    seq![
        SetupStep::BuildFontTexture,
        SetupStep::CreateTexture2d { desc: font.texture, row_pitch: font.row_pitch },
        SetupStep::CreateShaderResourceView { texture, desc: font.view },
        SetupStep::SetFontTextureId { texture_id: FONT_TEX_ID },
        SetupStep::CreateSamplerState { desc: font.sampler },
    ]
}

/// The events that follow up to the end, where no creation fails.
pub open spec fn last_events(objects: DeviceObjects, vertices: u64, indices: u64) -> Seq<
    SetupEvent,
> {
    seq![
        created(objects.font_sampler),
        created(vertices),
        created(indices),
        created(objects.context),
        SetupEvent::Done,
    ]
}

/// The renderer that is made of objects and of a vertex buffer and an index buffer of the least
/// size.
pub open spec fn new_renderer(objects: DeviceObjects, vertices: u64, indices: u64) -> RendererView {
    RendererView {
        objects,
        vertex_buffer: BufferView { object: vertices, len: vertex_buffer_plan(0).len },
        index_buffer: BufferView { object: indices, len: index_buffer_plan(0).len },
        textures: crate::textures::no_views(),
        next_texture: 0,
    }
}

/// The last actions: the two buffers and the device context, and what the context of `imgui` is
/// told.
pub open spec fn last_actions(
    version: Seq<char>,
    objects: DeviceObjects,
    vertices: u64,
    indices: u64,
) -> Seq<SetupActionView> {
    seq![
        SetupStep::CreateBuffer { desc: vertex_buffer_plan(0).desc },
        SetupStep::CreateBuffer { desc: index_buffer_plan(0).desc },
        SetupStep::GetImmediateContext,
        SetupStep::Announce {
            backend_flags: RENDERER_HAS_VTX_OFFSET,
            name: renderer_name(version),
        },
        SetupStep::Finish { result: Ok(new_renderer(objects, vertices, indices)) },
    ]
}

/// The objects up to the rasterizer state.
pub open spec fn first_objects(objects: DeviceObjects) -> DeviceObjects {
    DeviceObjects {
        vertex_shader: objects.vertex_shader,
        input_layout: objects.input_layout,
        constant_buffer: objects.constant_buffer,
        pixel_shader: objects.pixel_shader,
        blend_state: objects.blend_state,
        rasterizer_state: objects.rasterizer_state,
        ..no_objects(objects.device)
    }
}

/// The first part of a creation.
proof fn lemma_shaders(start: SetupRun, version: Seq<char>, objects: DeviceObjects)
    requires
        start.setup.stage is Ready,
        start.setup.objects == no_objects(objects.device),
        start.actions == Seq::<SetupActionView>::empty(),
    ensures
        run_setup(start, version, shader_events(objects)) == (SetupRun {
            setup: SetupView {
                stage: Stage::DepthStencilState,
                objects: first_objects(objects),
                ..start.setup
            },
            actions: shader_actions(),
        }),
{
    let events = shader_events(objects);
    lemma_fold_five(start, creation_step(version), events);
    let r1 = advance_setup(start, version, events[0]);
    let r2 = advance_setup(r1, version, events[1]);
    let r3 = advance_setup(r2, version, events[2]);
    let r4 = advance_setup(r3, version, events[3]);
    let r5 = advance_setup(r4, version, events[4]);
    let r6 = advance_setup(r5, version, events[5]);
    let r7 = advance_setup(r6, version, events[6]);
    lemma_fold_first(r5, creation_step(version), events.skip(5));
    lemma_fold_first(r6, creation_step(version), events.skip(5).skip(1));
    assert(r7.actions =~= shader_actions());
}

/// The second part of a creation.
proof fn lemma_font(
    start: SetupRun,
    version: Seq<char>,
    objects: DeviceObjects,
    width: u32,
    height: u32,
    texture: u64,
)
    requires
        start.setup.stage is DepthStencilState,
    ensures
        run_setup(start, version, font_events(objects, width, height, texture)) == (SetupRun {
            setup: SetupView {
                stage: Stage::FontSampler,
                objects: DeviceObjects {
                    depth_stencil_state: objects.depth_stencil_state,
                    font_resource_view: objects.font_resource_view,
                    ..start.setup.objects
                },
                ..start.setup
            },
            actions: start.actions + font_actions(width, height, texture),
        }),
{
    let events = font_events(objects, width, height, texture);
    lemma_fold_five(start, creation_step(version), events);
    let r1 = advance_setup(start, version, events[0]);
    let r2 = advance_setup(r1, version, events[1]);
    let r3 = advance_setup(r2, version, events[2]);
    let r4 = advance_setup(r3, version, events[3]);
    let r5 = advance_setup(r4, version, events[4]);
    assert(r5.actions =~= start.actions + font_actions(width, height, texture));
}

/// The third part of a creation.
proof fn lemma_last(
    start: SetupRun,
    version: Seq<char>,
    objects: DeviceObjects,
    vertices: u64,
    indices: u64,
)
    requires
        start.setup.stage is FontSampler,
        objects == (DeviceObjects {
            font_sampler: objects.font_sampler,
            context: objects.context,
            ..start.setup.objects
        }),
    ensures
        run_setup(start, version, last_events(objects, vertices, indices)).actions == start.actions
            + last_actions(version, objects, vertices, indices),
        run_setup(start, version, last_events(objects, vertices, indices)).setup.stage is Finished,
{
    let events = last_events(objects, vertices, indices);
    lemma_fold_five(start, creation_step(version), events);
    let r1 = advance_setup(start, version, events[0]);
    let r2 = advance_setup(r1, version, events[1]);
    let r3 = advance_setup(r2, version, events[2]);
    let r4 = advance_setup(r3, version, events[3]);
    let r5 = advance_setup(r4, version, events[4]);
    assert(r5.actions =~= start.actions + last_actions(version, objects, vertices, indices));
}

/// A creation in which nothing fails makes the shaders and the state objects, then the font texture,
/// then the two buffers, and takes the device context; it tells the context of `imgui` that the
/// renderer supports vertex offsets, and its name. It ends with a renderer of these objects, with
/// buffers of the least size and an empty texture registry.
pub proof fn a_creation_from_beginning_to_end(
    start: SetupView,
    version: Seq<char>,
    objects: DeviceObjects,
    width: u32,
    height: u32,
    texture: u64,
    vertices: u64,
    indices: u64,
)
    requires
        start.stage is Ready,
        start.objects == no_objects(objects.device),
    ensures
        ({
            let end = run_setup(
                SetupRun { setup: start, actions: Seq::empty() },
                version,
                shader_events(objects) + font_events(objects, width, height, texture)
                    + last_events(objects, vertices, indices),
            );
            &&& end.setup.stage is Finished
            &&& end.actions == shader_actions() + font_actions(width, height, texture)
                + last_actions(version, objects, vertices, indices)
        }),
{
    let begin = SetupRun { setup: start, actions: Seq::empty() };
    let first = shader_events(objects);
    let second = font_events(objects, width, height, texture);
    let third = last_events(objects, vertices, indices);
    lemma_shaders(begin, version, objects);
    lemma_fold_add(begin, creation_step(version), first, second);
    let middle = run_setup(begin, version, first);
    lemma_font(middle, version, objects, width, height, texture);
    lemma_fold_add(begin, creation_step(version), first + second, third);
    lemma_last(
        run_setup(middle, version, second),
        version,
        objects,
        vertices,
        indices,
    );
}

/// The font texture has the width and the height of the font atlas, of which it holds all texels: a
/// row of it has four bytes for each texel, so that each row begins where the row before it ends. It
/// has one mipmap and one sample, is read by shaders, and stands under the largest texture id.
pub proof fn the_font_texture_holds_the_atlas(width: u32, height: u32)
    requires
        width * 4 <= u32::MAX,
    ensures
        ({
            let font = font_texture(width, height);
            &&& font.texture.width == width
            &&& font.texture.height == height
            &&& font.row_pitch == 4 * width
            &&& font.texture.mip_levels == 1
            &&& font.texture.array_size == 1
            &&& font.texture.format == DXGI_FORMAT_R8G8B8A8_UNORM
            &&& font.texture.sample_count == 1
            &&& font.texture.sample_quality == 0
            &&& font.texture.usage == D3D11_USAGE_DEFAULT
            &&& font.texture.bind_flags == D3D11_BIND_SHADER_RESOURCE
            &&& font.texture.cpu_access_flags == 0
            &&& font.texture.misc_flags == 0
            &&& font.view.format == font.texture.format
            &&& font.view.view_dimension == D3D11_SRV_DIMENSION_TEXTURE2D
            &&& font.view.most_detailed_mip == 0
            &&& font.view.mip_levels == font.texture.mip_levels
            &&& font.texture_id == usize::MAX
            &&& font.sampler == font_sampler_desc()
        }),
{
}

/// Once the font atlas is built, a creation asks for a texture of just its width and height, whose rows
/// have four bytes for each texel.
pub proof fn the_atlas_is_uploaded_row_by_row(
    setup: SetupView,
    version: Seq<char>,
    width: u32,
    height: u32,
)
    requires
        setup.stage is FontAtlas,
        width * 4 <= u32::MAX,
    ensures
        ({
            let (after, action) = setup_step(
                setup,
                version,
                SetupEvent::FontTextureBuilt { width, height },
            );
            &&& action is CreateTexture2d
            &&& action->CreateTexture2d_desc.width == width
            &&& action->CreateTexture2d_desc.height == height
            &&& action->row_pitch == 4 * width
            &&& forall|row: nat|
                row < height ==> #[trigger] (row * action->row_pitch) == row * (4 * width)
            &&& after.objects == setup.objects
        }),
{
}

/// An action is seen as it is: contracts speak of the same action, with the contents of its name and
/// of its renderer.
pub proof fn a_creation_is_seen_as_it_is(action: SetupAction)
    ensures
        action is CreateVertexShader ==> action@ is CreateVertexShader,
        action matches SetupStep::CreateInputLayout { elements } ==> action@
            is CreateInputLayout && action@->elements == elements,
        action matches SetupStep::CreateBuffer { desc } ==> action@ is CreateBuffer
            && action@->CreateBuffer_desc == desc,
        action is CreatePixelShader ==> action@ is CreatePixelShader,
        action matches SetupStep::CreateBlendState { desc } ==> action@ is CreateBlendState
            && action@->CreateBlendState_desc == desc,
        action matches SetupStep::CreateRasterizerState { desc } ==> action@
            is CreateRasterizerState && action@->CreateRasterizerState_desc == desc,
        action matches SetupStep::CreateDepthStencilState { desc } ==> action@
            is CreateDepthStencilState && action@->CreateDepthStencilState_desc == desc,
        action is BuildFontTexture ==> action@ is BuildFontTexture,
        action matches SetupStep::CreateTexture2d { desc, row_pitch } ==> {
            &&& action@ is CreateTexture2d
            &&& action@->CreateTexture2d_desc == desc
            &&& action@->row_pitch == row_pitch
        },
        action matches SetupStep::CreateShaderResourceView { texture, desc } ==> {
            &&& action@ is CreateShaderResourceView
            &&& action@->texture == texture
            &&& action@->CreateShaderResourceView_desc == desc
        },
        action matches SetupStep::SetFontTextureId { texture_id } ==> action@
            is SetFontTextureId && action@->texture_id == texture_id,
        action matches SetupStep::CreateSamplerState { desc } ==> action@ is CreateSamplerState
            && action@->CreateSamplerState_desc == desc,
        action is GetImmediateContext ==> action@ is GetImmediateContext,
        action matches SetupStep::Announce { backend_flags, name } ==> {
            &&& action@ is Announce
            &&& action@->backend_flags == backend_flags
            &&& action@->name == name@
        },
        action matches SetupStep::Finish { result: Ok(renderer) } ==> {
            &&& action@ is Finish
            &&& action@->result is Ok
            &&& action@->result->Ok_0 == renderer@
        },
        action matches SetupStep::Finish { result: Err(code) } ==> {
            &&& action@ is Finish
            &&& action@->result is Err
            &&& action@->result->Err_0 == code
        },
{
}

/// Whether these are the events of a creation in which nothing fails, with the given objects, the given
/// size of the font atlas, and the given font texture and buffers.
pub open spec fn are_good_events(
    events: Seq<SetupEvent>,
    objects: DeviceObjects,
    width: u32,
    height: u32,
    texture: u64,
    vertices: u64,
    indices: u64,
) -> bool {
    &&& events.len() == 17
    &&& events[0] == SetupEvent::Begin
    &&& events[1] == (SetupEvent::Created { object: Ok(objects.vertex_shader) })
    &&& events[2] == (SetupEvent::Created { object: Ok(objects.input_layout) })
    &&& events[3] == (SetupEvent::Created { object: Ok(objects.constant_buffer) })
    &&& events[4] == (SetupEvent::Created { object: Ok(objects.pixel_shader) })
    &&& events[5] == (SetupEvent::Created { object: Ok(objects.blend_state) })
    &&& events[6] == (SetupEvent::Created { object: Ok(objects.rasterizer_state) })
    &&& events[7] == (SetupEvent::Created { object: Ok(objects.depth_stencil_state) })
    &&& events[8] == (SetupEvent::FontTextureBuilt { width, height })
    &&& events[9] == (SetupEvent::Created { object: Ok(texture) })
    &&& events[10] == (SetupEvent::Created { object: Ok(objects.font_resource_view) })
    &&& events[11] == SetupEvent::Done
    &&& events[12] == (SetupEvent::Created { object: Ok(objects.font_sampler) })
    &&& events[13] == (SetupEvent::Created { object: Ok(vertices) })
    &&& events[14] == (SetupEvent::Created { object: Ok(indices) })
    &&& events[15] == (SetupEvent::Created { object: Ok(objects.context) })
    &&& events[16] == SetupEvent::Done
}

/// A creation in which nothing fails asks for these things, one after the other, and ends with a
/// renderer that has each of the objects in its place, buffers with room for five thousand vertices
/// and ten thousand indices, and no textures.
pub proof fn a_creation_asks_for_these_things(
    start: SetupView,
    version: Seq<char>,
    events: Seq<SetupEvent>,
    objects: DeviceObjects,
    width: u32,
    height: u32,
    texture: u64,
    vertices: u64,
    indices: u64,
)
    requires
        start.stage is Ready,
        start.objects == no_objects(objects.device),
        are_good_events(events, objects, width, height, texture, vertices, indices),
        width * 4 <= u32::MAX,
    ensures
        ({
            let end = run_setup(
                SetupRun { setup: start, actions: Seq::empty() },
                version,
                events,
            );
            let actions = end.actions;
            &&& end.setup.stage is Finished
            &&& actions.len() == 17
            &&& actions[0] is CreateVertexShader
            &&& actions[1] is CreateInputLayout
            &&& actions[1]->elements == vertex_layout()
            &&& actions[2] is CreateBuffer
            &&& actions[2]->CreateBuffer_desc == constant_buffer_desc()
            &&& actions[3] is CreatePixelShader
            &&& actions[4] is CreateBlendState
            &&& actions[4]->CreateBlendState_desc == blend_desc()
            &&& actions[5] is CreateRasterizerState
            &&& actions[5]->CreateRasterizerState_desc == rasterizer_desc()
            &&& actions[6] is CreateDepthStencilState
            &&& actions[6]->CreateDepthStencilState_desc == depth_stencil_desc()
            &&& actions[7] is BuildFontTexture
            &&& actions[8] is CreateTexture2d
            &&& actions[8]->CreateTexture2d_desc.width == width
            &&& actions[8]->CreateTexture2d_desc.height == height
            &&& actions[8]->CreateTexture2d_desc == font_texture(width, height).texture
            &&& actions[8]->row_pitch == 4 * width
            &&& actions[9] is CreateShaderResourceView
            &&& actions[9]->texture == texture
            &&& actions[9]->CreateShaderResourceView_desc == font_view_desc()
            &&& actions[10] is SetFontTextureId
            &&& actions[10]->texture_id == usize::MAX
            &&& actions[11] is CreateSamplerState
            &&& actions[11]->CreateSamplerState_desc == font_sampler_desc()
            &&& actions[12] is CreateBuffer
            &&& actions[12]->CreateBuffer_desc == vertex_buffer_plan(0).desc
            &&& actions[12]->CreateBuffer_desc.byte_width == 100000
            &&& actions[13] is CreateBuffer
            &&& actions[13]->CreateBuffer_desc == index_buffer_plan(0).desc
            &&& actions[13]->CreateBuffer_desc.byte_width == 20000
            &&& actions[14] is GetImmediateContext
            &&& actions[15] is Announce
            &&& actions[15]->backend_flags == 8
            &&& actions[15]->name == "imgui_dx11_renderer@"@ + version
            &&& actions[16] is Finish
            &&& actions[16]->result is Ok
            &&& actions[16]->result->Ok_0.objects == objects
            &&& actions[16]->result->Ok_0.vertex_buffer.object == vertices
            &&& actions[16]->result->Ok_0.vertex_buffer.len == 5000
            &&& actions[16]->result->Ok_0.index_buffer.object == indices
            &&& actions[16]->result->Ok_0.index_buffer.len == 10000
            &&& actions[16]->result->Ok_0.textures == Map::<usize, u64>::empty()
            &&& actions[16]->result->Ok_0.next_texture == 0
        }),
{
    let first = shader_events(objects);
    let second = font_events(objects, width, height, texture);
    let third = last_events(objects, vertices, indices);
    a_creation_from_beginning_to_end(
        start,
        version,
        objects,
        width,
        height,
        texture,
        vertices,
        indices,
    );
    assert(events =~= first + second + third);
    let shaders = shader_actions();
    let font = font_actions(width, height, texture);
    let last = last_actions(version, objects, vertices, indices);
    assert(shaders.len() == 7 && font.len() == 5 && last.len() == 5);
}

} // verus!
