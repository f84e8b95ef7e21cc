[package]
name = "corsair_headset"
version = "0.1.0"
edition = "2021"
publish = false

[dependencies]
anyhow = "1"
async-trait = "0.1"
dirs = "*"
futures-core = "0.3"
hidapi = "2"
muda = "*"
serde = { version = "1", features = ["derive"] }
tao = "*"
thiserror = "*"
tokio = { version = "1", features = ["rt", "sync", "time", "macros"] }
tokio-stream = { version = "0.1", features = ["sync"] }
toml = "*"
tracing = "0.1"
tracing-subscriber = { version = "0.3", features = ["env-filter"] }
tray-icon = "*"
