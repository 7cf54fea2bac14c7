[package]
name = "imgui-dx11-renderer"
version = "0.13.0"
edition = "2021"
publish = false

[dependencies]
imgui = "=0.12.0"

[dependencies.windows]
version = "0.52"
features = [
    "Win32_Foundation",
    "Win32_Graphics_Direct3D",
    "Win32_Graphics_Direct3D11",
    "Win32_Graphics_Dxgi",
    "Win32_Graphics_Dxgi_Common",
]
