[package]
name = "bundle_store"
version = "0.1.0"
edition = "2021"
publish = false

[dependencies]
rand = "0.8"
sha2 = "0.10"
tokio = { version = "1", features = ["fs", "io-util", "time", "rt-multi-thread", "macros", "net"] }
axum = "0.7"
log = "0.4"
env_logger = "0.10"
mime_guess = "2"
serde = { version = "1", features = ["derive"] }
