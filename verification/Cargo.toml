[package]
name = "tibia_bot"
version = "0.1.0"
edition = "2021"
publish = false

[dependencies]
anyhow = "1"
arc-swap = "1"
axum = "0.7"
bincode = "=1.3.3"
crossbeam-channel = "0.5"
image = { version = "=0.25.10", default-features = false, features = ["png"] }
imageproc = { version = "=0.25.1", default-features = false }
mlua = { version = "=0.10.5", features = ["lua54", "vendored"] }
parking_lot = "0.12"
pathfinding = "=4.16.0"
postcard = { version = "=1.1.3", features = ["use-std"] }
rand = "=0.8.8"
rand_distr = "=0.4.3"
serde = { version = "1", features = ["derive"] }
serde_json = "1"
tokio = { version = "1", features = ["macros", "rt-multi-thread", "net", "time", "sync", "io-util", "signal"] }
toml = "0.8"
tower = { version = "0.5", features = ["limit", "util"] }
tower-http = { version = "0.6", features = ["limit"] }
tracing = "0.1"
tracing-subscriber = { version = "0.3", features = ["env-filter"] }
