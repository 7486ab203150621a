[package]
name = "replicon_demo"
version = "0.1.0"
edition = "2021"
publish = false

[dependencies]
bevy = { version = "*", default-features = false }
bevy_replicon = "*"
bevy_replicon_renet = "*"
clap = { version = "*", features = ["derive"] }
serde = { version = "*", features = ["derive"] }
