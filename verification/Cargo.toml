[package]
name = "telemetry_bridge"
version = "0.1.0"
edition = "2021"
publish = false

[dependencies]
async-trait = "0.1"
prometheus = { version = "0.13", default-features = false }
reqwest = { version = "0.12", default-features = false, features = ["json"] }
serde = { version = "1", features = ["derive"] }
serde_json = "1"
tokio = { version = "1", features = ["macros", "rt-multi-thread", "sync", "time"] }
toml = "0.8"
warp = { version = "0.3", default-features = false }
