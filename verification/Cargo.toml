[package]
name = "local_up"
version = "0.1.0"
edition = "2021"
publish = false

[dependencies]
bevy_app = "0.14"
bevy_ecs = "0.14"
bevy_math = "0.14"
bevy_time = "0.14"
bevy_transform = "0.14"
