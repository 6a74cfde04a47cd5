[package]
name = "gateway_bridge"
version = "0.1.0"
edition = "2021"
publish = false

[dependencies]
async-trait = "0.1"
once_cell = "1"
serde = { version = "1", features = ["derive"] }
serde_json = "1"
skyway-webrtc-gateway-caller = "*"
tokio = { version = "1", features = ["macros", "rt", "rt-multi-thread", "sync", "time"] }
