[package]
name = "bevy_pigeon"
version = "0.3.0"
edition = "2021"
publish = false

[dependencies]
async-trait = "=0.1.66"
bevy = { version = "=0.7.0", default-features = false }
carrier-pigeon = "=0.3.0"
serde = { version = "=1.0.229", features = ["derive"] }
