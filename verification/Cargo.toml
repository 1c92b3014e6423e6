[package]
name = "platformer"
version = "0.1.0"
edition = "2021"
publish = false

[dependencies]
bevy = { version = "0.7", default-features = false, features = ["render", "png"] }
bevy_asset_loader = { version = "0.11", features = ["stageless"] }
bevy_ecs_ldtk = "0.3"
heron = { version = "3", features = ["2d"] }
iyes_loopless = "0.5"
