[package]
name = "map_editor"
version = "0.1.0"
edition = "2021"
publish = false

[dependencies]
imgui = "=0.10.0"
imgui-dx9-renderer = "=0.10.0"
imgui-winit-support = "=0.10.0"
raw-window-handle = "=0.5.2"
windows = { version = "=0.44.0", features = ["Win32_Foundation", "Win32_Graphics_Direct3D9", "Win32_System_SystemServices"] }
