[package]
name = "gfxinfo"
version = "0.1.0"
edition = "2021"

[dependencies]
nvml-wrapper = "=0.13.0"
libdrm_amdgpu_sys = { version = "=0.9.0", default-features = false, features = ["dynamic_loading"] }
