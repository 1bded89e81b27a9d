[package]
name = "dx12_hal"
version = "0.1.0"
edition = "2021"
publish = false

[dependencies]
arrayvec = "0.7"
d3d12 = "0.4"
log = "0.4"
parking_lot = "0.11"
wgpu-types = "0.10"
winapi = { version = "0.3", features = ["d3d12", "dxgi", "dxgi1_2", "dxgi1_4", "dxgiformat", "dxgitype", "synchapi", "winbase", "windef", "winerror", "winnt"] }
