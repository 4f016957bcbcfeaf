[package]
name = "asset_manager"
version = "0.1.0"
edition = "2021"
publish = false

[dependencies]
gfx = "=0.18.3"
gfx_device_gl = "=0.16.2"
