[package]
name = "guardian"
version = "0.1.0"
edition = "2021"
publish = false

[dependencies]
aes-gcm = "0.10"
sha2 = "0.10"
nix = { version = "0.29", features = ["signal"] }
uuid = { version = "1", features = ["v4"] }
serde = { version = "1", features = ["derive"] }
serde_json = "1"
toml = "0.8"
tokio = { version = "1", features = ["full"] }
axum = "0.7"
async-trait = "0.1"
async-stream = "0.3"
futures-core = "0.3"
rusqlite = { version = "0.31", features = ["bundled"] }
notify = "6"
sysinfo = "0.30"
reqwest = { version = "0.12", default-features = false }
