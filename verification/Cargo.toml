[package]
name = "camctl"
version = "0.1.0"
edition = "2021"
publish = false

[dependencies]
tokio = { version = "1", features = ["rt-multi-thread", "macros", "net", "io-util", "time", "fs", "sync", "signal"] }
async-trait = "0.1"
btleplug = "0.11"
futures = "0.3"
reqwest = { version = "0.12", default-features = false }
serde = { version = "1", features = ["derive"] }
serde_json = "1"
indexmap = { version = "2", features = ["serde"] }
uuid = { version = "1", features = ["v4"] }
socket2 = "0.5"
tokio-serial = "5"
axum = { version = "0.8", features = ["ws"] }

[dev-dependencies]
hex = "0.4"
