[package]
name = "sigil"
version = "0.1.0"
edition = "2021"
publish = false

[dependencies]
alloy-primitives = { version = "=0.8.26", features = ["serde"] }
anyhow = "=1.0.104"
axum = "=0.7.9"
base64 = "0.22"
bincode = "=1.3.3"
cargo_metadata = "=0.18.1"
chrono = "=0.4.45"
dotenv = "=0.15.0"
log = "=0.4.34"
serde = { version = "1", features = ["derive"] }
sp1-build = "=4.2.1"
tokio = { version = "=1.54.1", features = ["full"] }
tower-http = { version = "=0.5.2", features = ["limit"] }
uuid = { version = "=1.29.0", features = ["v4"] }
