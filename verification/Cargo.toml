[package]
name = "noema"
version = "0.1.0"
edition = "2021"
publish = false

[dependencies]
serde = { version = "=1.0.229", features = ["derive"] }
serde_json = { version = "=1.0.154", features = ["preserve_order"] }
tokio = { version = "=1.54.1", features = ["sync", "time", "rt", "rt-multi-thread", "macros"] }
tokio-util = "=0.7.20"
tokio-stream = "=0.1.19"
async-trait = "=0.1.92"
thiserror = "=2.0.21"
tracing = "=0.1.44"
tracing-subscriber = "=0.3.23"
futures-util = "=0.3.34"
async-stream = "=0.3.6"
reqwest = { version = "=0.12.28", default-features = false, features = ["json", "stream"] }
base64 = "=0.22.1"
tempfile = "=3.27.0"
libloading = "=0.8.9"
rig-core = "=0.32.0"
