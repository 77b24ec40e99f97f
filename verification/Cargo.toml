[package]
name = "climber"
version = "0.1.0"
edition = "2021"
publish = false

[dependencies]
bevy = { version = "0.17", default-features = false, features = ["bevy_pbr", "bevy_gizmos", "bevy_window"] }
avian3d = { version = "0.4", default-features = false, features = ["3d", "f32", "parry-f32", "default-collider"] }
