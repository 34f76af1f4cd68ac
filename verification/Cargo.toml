[package]
name = "voxel_volume"
version = "0.1.0"
edition = "2021"
publish = false

[dependencies]
vox-format = "=0.1.0"
bevy = { version = "=0.10.1", default-features = false, features = [
    "bevy_asset",
    "bevy_core_pipeline",
    "bevy_pbr",
    "bevy_render",
] }
