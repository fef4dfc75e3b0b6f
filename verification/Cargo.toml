[package]
name = "imgui-dx9-renderer"
version = "0.1.0"
edition = "2021"
publish = false

[dependencies]
imgui = "=0.12.0"
windows = { version = "0.62", features = ["Win32_Foundation", "Win32_Graphics_Direct3D9", "Win32_Graphics_Dxgi", "Win32_Graphics_Gdi"] }
windows-numerics = "0.3"
