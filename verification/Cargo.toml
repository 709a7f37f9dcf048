[package]
name = "tick_time"
version = "0.1.0"
edition = "2021"
publish = false

[dependencies]
bevy_ecs = "0.11"
bevy_reflect = "0.11"
bevy_utils = "0.11"
