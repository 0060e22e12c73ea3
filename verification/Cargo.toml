[package]
name = "omnikv"
version = "0.1.0"
edition = "2021"
publish = false

[dependencies]
tokio = { version = "1", features = ["macros", "rt-multi-thread", "sync", "time", "net"] }
axum = "0.7"
serde = { version = "1", features = ["derive"] }
serde_json = "1"
reqwest = { version = "0.12", default-features = false, features = ["json"] }
maelstrom-node = "0.1"
async-trait = "0.1"
chrono = "0.4"
rand = "0.8"
log = "0.4"
