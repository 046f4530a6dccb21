[package]
name = "hati"
version = "0.1.0"
edition = "2021"
publish = false

[dependencies]
assimp = "0.3"
cgmath = "0.16"
failure = "0.1"
image = "0.23"
time = "0.1"
winapi = { version = "0.3", features = ["basetsd", "d3d12", "d3d12sdklayers", "d3dcommon", "d3dcompiler", "dxgi", "dxgi1_2", "dxgi1_3", "dxgi1_4", "dxgiformat", "dxgitype", "handleapi", "minwindef", "ntdef", "synchapi", "unknwnbase", "winbase", "windef", "winerror", "winnt"] }
winit = "0.19"
wio = "0.2"
