use imgui_dx11_renderer::d3d11;
use imgui_dx11_renderer::f32_bits::is_at_most_zero;
use windows::Win32::Graphics::Direct3D11 as api;
use windows::Win32::Graphics::Dxgi::Common as dxgi;

#[test]
fn numbers_are_those_of_the_headers() {
    assert_eq!(
        d3d11::DXGI_ERROR_INVALID_CALL,
        windows::Win32::Graphics::Dxgi::DXGI_ERROR_INVALID_CALL.0
    );
    assert_eq!(d3d11::DXGI_FORMAT_UNKNOWN, dxgi::DXGI_FORMAT_UNKNOWN.0);
    assert_eq!(d3d11::DXGI_FORMAT_R32G32_FLOAT, dxgi::DXGI_FORMAT_R32G32_FLOAT.0);
    assert_eq!(d3d11::DXGI_FORMAT_R8G8B8A8_UNORM, dxgi::DXGI_FORMAT_R8G8B8A8_UNORM.0);
    assert_eq!(d3d11::DXGI_FORMAT_R32_UINT, dxgi::DXGI_FORMAT_R32_UINT.0);
    assert_eq!(d3d11::DXGI_FORMAT_R16_UINT, dxgi::DXGI_FORMAT_R16_UINT.0);
    assert_eq!(d3d11::D3D11_USAGE_DEFAULT, api::D3D11_USAGE_DEFAULT.0);
    assert_eq!(d3d11::D3D11_USAGE_DYNAMIC, api::D3D11_USAGE_DYNAMIC.0);
    assert_eq!(d3d11::D3D11_BIND_VERTEX_BUFFER, api::D3D11_BIND_VERTEX_BUFFER.0 as u32);
    assert_eq!(d3d11::D3D11_BIND_INDEX_BUFFER, api::D3D11_BIND_INDEX_BUFFER.0 as u32);
    assert_eq!(d3d11::D3D11_BIND_CONSTANT_BUFFER, api::D3D11_BIND_CONSTANT_BUFFER.0 as u32);
    assert_eq!(d3d11::D3D11_BIND_SHADER_RESOURCE, api::D3D11_BIND_SHADER_RESOURCE.0 as u32);
    assert_eq!(d3d11::D3D11_CPU_ACCESS_WRITE, api::D3D11_CPU_ACCESS_WRITE.0 as u32);
    assert_eq!(d3d11::D3D11_MAP_WRITE_DISCARD, api::D3D11_MAP_WRITE_DISCARD.0);
    assert_eq!(
        d3d11::D3D11_PRIMITIVE_TOPOLOGY_TRIANGLELIST,
        windows::Win32::Graphics::Direct3D::D3D11_PRIMITIVE_TOPOLOGY_TRIANGLELIST.0
    );
    assert_eq!(
        d3d11::D3D11_PRIMITIVE_TOPOLOGY_UNDEFINED,
        windows::Win32::Graphics::Direct3D::D3D11_PRIMITIVE_TOPOLOGY_UNDEFINED.0
    );
    assert_eq!(d3d11::D3D11_INPUT_PER_VERTEX_DATA, api::D3D11_INPUT_PER_VERTEX_DATA.0);
    assert_eq!(
        d3d11::D3D11_SRV_DIMENSION_TEXTURE2D,
        windows::Win32::Graphics::Direct3D::D3D11_SRV_DIMENSION_TEXTURE2D.0
    );
    assert_eq!(d3d11::D3D11_FILTER_MIN_MAG_MIP_LINEAR, api::D3D11_FILTER_MIN_MAG_MIP_LINEAR.0);
    assert_eq!(d3d11::D3D11_TEXTURE_ADDRESS_WRAP, api::D3D11_TEXTURE_ADDRESS_WRAP.0);
    assert_eq!(d3d11::D3D11_COMPARISON_ALWAYS, api::D3D11_COMPARISON_ALWAYS.0);
    assert_eq!(d3d11::D3D11_BLEND_ONE, api::D3D11_BLEND_ONE.0);
    assert_eq!(d3d11::D3D11_BLEND_SRC_ALPHA, api::D3D11_BLEND_SRC_ALPHA.0);
    assert_eq!(d3d11::D3D11_BLEND_INV_SRC_ALPHA, api::D3D11_BLEND_INV_SRC_ALPHA.0);
    assert_eq!(d3d11::D3D11_BLEND_OP_ADD, api::D3D11_BLEND_OP_ADD.0);
    assert_eq!(
        d3d11::D3D11_COLOR_WRITE_ENABLE_ALL,
        api::D3D11_COLOR_WRITE_ENABLE_ALL.0 as u8
    );
    assert_eq!(d3d11::D3D11_FILL_SOLID, api::D3D11_FILL_SOLID.0);
    assert_eq!(d3d11::D3D11_CULL_NONE, api::D3D11_CULL_NONE.0);
    assert_eq!(d3d11::D3D11_STENCIL_OP_KEEP, api::D3D11_STENCIL_OP_KEEP.0);
    assert_eq!(d3d11::D3D11_DEPTH_WRITE_MASK_ALL, api::D3D11_DEPTH_WRITE_MASK_ALL.0);
    assert_eq!(
        imgui_dx11_renderer::backup::VIEWPORT_AND_SCISSORRECT_COUNT,
        api::D3D11_VIEWPORT_AND_SCISSORRECT_OBJECT_COUNT_PER_PIPELINE as usize
    );
}

#[test]
fn bits_are_those_of_the_numbers() {
    assert_eq!(d3d11::F32_ZERO, 0.0f32.to_bits());
    assert_eq!(d3d11::F32_HALF, 0.5f32.to_bits());
    assert_eq!(d3d11::F32_ONE, 1.0f32.to_bits());
}

#[test]
fn comparison_with_zero_is_that_of_the_numbers() {
    let numbers = [
        0.0f32,
        -0.0,
        1.0,
        -1.0,
        1280.0,
        -1280.0,
        f32::MIN_POSITIVE,
        -f32::MIN_POSITIVE,
        f32::from_bits(1),
        f32::from_bits(0x8000_0001),
        f32::MAX,
        f32::MIN,
        f32::INFINITY,
        f32::NEG_INFINITY,
        f32::NAN,
        -f32::NAN,
        f32::from_bits(0x7F80_0001),
        f32::from_bits(0xFF80_0001),
        f32::from_bits(0xFFFF_FFFF),
    ];
    for x in numbers {
        assert_eq!(is_at_most_zero(x.to_bits()), x <= 0.0, "{:?}", x);
    }
    assert!(is_at_most_zero((-0.0f32).to_bits()));
    assert!(!is_at_most_zero(f32::NAN.to_bits()));
}
