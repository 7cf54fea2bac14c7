//! Plain images of the Direct3D 11 values that the renderer decides on.
//!
//! Device objects are opaque handles of type `u64`, enumerations and flags hold the numbers of the
//! Direct3D headers, and floating-point members hold the bits of their IEEE 754 single-precision
//! value.

use vstd::prelude::*;

verus! {

/// The `HRESULT` of a call that the application was not allowed to make.
pub const DXGI_ERROR_INVALID_CALL: i32 = -2005270527;

pub const DXGI_FORMAT_UNKNOWN: i32 = 0;

pub const DXGI_FORMAT_R32G32_FLOAT: i32 = 16;

pub const DXGI_FORMAT_R8G8B8A8_UNORM: i32 = 28;

pub const DXGI_FORMAT_R32_UINT: i32 = 42;

pub const DXGI_FORMAT_R16_UINT: i32 = 57;

pub const D3D11_USAGE_DEFAULT: i32 = 0;

pub const D3D11_USAGE_DYNAMIC: i32 = 2;

pub const D3D11_BIND_VERTEX_BUFFER: u32 = 1;

pub const D3D11_BIND_INDEX_BUFFER: u32 = 2;

pub const D3D11_BIND_CONSTANT_BUFFER: u32 = 4;

pub const D3D11_BIND_SHADER_RESOURCE: u32 = 8;

pub const D3D11_CPU_ACCESS_WRITE: u32 = 65536;

pub const D3D11_MAP_WRITE_DISCARD: i32 = 4;

pub const D3D11_PRIMITIVE_TOPOLOGY_UNDEFINED: i32 = 0;

pub const D3D11_PRIMITIVE_TOPOLOGY_TRIANGLELIST: i32 = 4;

pub const D3D11_INPUT_PER_VERTEX_DATA: i32 = 0;

pub const D3D11_SRV_DIMENSION_TEXTURE2D: i32 = 4;

pub const D3D11_FILTER_MIN_MAG_MIP_LINEAR: i32 = 21;

pub const D3D11_TEXTURE_ADDRESS_WRAP: i32 = 1;

pub const D3D11_COMPARISON_ALWAYS: i32 = 8;

pub const D3D11_BLEND_ONE: i32 = 2;

pub const D3D11_BLEND_SRC_ALPHA: i32 = 5;

pub const D3D11_BLEND_INV_SRC_ALPHA: i32 = 6;

pub const D3D11_BLEND_OP_ADD: i32 = 1;

pub const D3D11_COLOR_WRITE_ENABLE_ALL: u8 = 15;

pub const D3D11_FILL_SOLID: i32 = 3;

pub const D3D11_CULL_NONE: i32 = 1;

pub const D3D11_STENCIL_OP_KEEP: i32 = 1;

pub const D3D11_DEPTH_WRITE_MASK_ALL: i32 = 1;

/// A blend sample mask that keeps every sample.
pub const SAMPLE_MASK_ALL: u32 = 0xFFFF_FFFF;

/// The bits of `0.0`.
pub const F32_ZERO: u32 = 0;

/// The bits of `0.5`.
pub const F32_HALF: u32 = 0x3F00_0000;

/// The bits of `1.0`.
pub const F32_ONE: u32 = 0x3F80_0000;

/// `RECT`
#[derive(Clone, Copy, Debug, PartialEq, Eq)]
pub struct Rect {
    pub left: i32,
    pub top: i32,
    pub right: i32,
    pub bottom: i32,
}

/// `D3D11_VIEWPORT`, with the bits of its members
#[derive(Clone, Copy, Debug, PartialEq, Eq)]
pub struct Viewport {
    pub top_left_x: u32,
    pub top_left_y: u32,
    pub width: u32,
    pub height: u32,
    pub min_depth: u32,
    pub max_depth: u32,
}

/// `D3D11_BUFFER_DESC`
#[derive(Clone, Copy, Debug, PartialEq, Eq)]
pub struct BufferDesc {
    pub byte_width: u32,
    pub usage: i32,
    pub bind_flags: u32,
    pub cpu_access_flags: u32,
    pub misc_flags: u32,
    pub structure_byte_stride: u32,
}

/// `D3D11_INPUT_ELEMENT_DESC`
#[derive(Clone, Copy, Debug, PartialEq, Eq)]
pub struct InputElementDesc {
    pub semantic_name: &'static str,
    pub semantic_index: u32,
    pub format: i32,
    pub input_slot: u32,
    pub aligned_byte_offset: u32,
    pub input_slot_class: i32,
    pub instance_data_step_rate: u32,
}

/// `D3D11_TEXTURE2D_DESC`
#[derive(Clone, Copy, Debug, PartialEq, Eq)]
pub struct Texture2dDesc {
    pub width: u32,
    pub height: u32,
    pub mip_levels: u32,
    pub array_size: u32,
    pub format: i32,
    pub sample_count: u32,
    pub sample_quality: u32,
    pub usage: i32,
    pub bind_flags: u32,
    pub cpu_access_flags: u32,
    pub misc_flags: u32,
}

/// `D3D11_SHADER_RESOURCE_VIEW_DESC` of a two-dimensional texture
#[derive(Clone, Copy, Debug, PartialEq, Eq)]
pub struct ShaderResourceViewDesc {
    pub format: i32,
    pub view_dimension: i32,
    pub most_detailed_mip: u32,
    pub mip_levels: u32,
}

/// `D3D11_SAMPLER_DESC`, with the bits of its floating-point members
#[derive(Clone, Copy, Debug, PartialEq, Eq)]
pub struct SamplerDesc {
    pub filter: i32,
    pub address_u: i32,
    pub address_v: i32,
    pub address_w: i32,
    pub mip_lod_bias: u32,
    pub max_anisotropy: u32,
    pub comparison_func: i32,
    pub border_color: [u32; 4],
    pub min_lod: u32,
    pub max_lod: u32,
}

/// `D3D11_RENDER_TARGET_BLEND_DESC`
#[derive(Clone, Copy, Debug, PartialEq, Eq)]
pub struct RenderTargetBlendDesc {
    pub blend_enable: bool,
    pub src_blend: i32,
    pub dest_blend: i32,
    pub blend_op: i32,
    pub src_blend_alpha: i32,
    pub dest_blend_alpha: i32,
    pub blend_op_alpha: i32,
    pub render_target_write_mask: u8,
}

/// `D3D11_BLEND_DESC`
#[derive(Clone, Copy, Debug, PartialEq, Eq)]
pub struct BlendDesc {
    pub alpha_to_coverage_enable: bool,
    pub independent_blend_enable: bool,
    pub render_target: [RenderTargetBlendDesc; 8],
}

/// `D3D11_RASTERIZER_DESC`, with the bits of its floating-point members
#[derive(Clone, Copy, Debug, PartialEq, Eq)]
pub struct RasterizerDesc {
    pub fill_mode: i32,
    pub cull_mode: i32,
    pub front_counter_clockwise: bool,
    pub depth_bias: i32,
    pub depth_bias_clamp: u32,
    pub slope_scaled_depth_bias: u32,
    pub depth_clip_enable: bool,
    pub scissor_enable: bool,
    pub multisample_enable: bool,
    pub antialiased_line_enable: bool,
}

/// `D3D11_DEPTH_STENCILOP_DESC`
#[derive(Clone, Copy, Debug, PartialEq, Eq)]
pub struct StencilOpDesc {
    pub stencil_fail_op: i32,
    pub stencil_depth_fail_op: i32,
    pub stencil_pass_op: i32,
    pub stencil_func: i32,
}

/// `D3D11_DEPTH_STENCIL_DESC`
#[derive(Clone, Copy, Debug, PartialEq, Eq)]
pub struct DepthStencilDesc {
    pub depth_enable: bool,
    pub depth_write_mask: i32,
    pub depth_func: i32,
    pub stencil_enable: bool,
    pub stencil_read_mask: u8,
    pub stencil_write_mask: u8,
    pub front_face: StencilOpDesc,
    pub back_face: StencilOpDesc,
}

/// The contents of the constant buffer that the vertex shader reads: the projection matrix, row by
/// row, in bits
#[derive(Clone, Copy, Debug, PartialEq, Eq)]
pub struct VertexConstantBuffer {
    pub mvp: [[u32; 4]; 4],
}

} // verus!
