[package]
name = "rudevil"
version = "0.1.0"
edition = "2021"
publish = false

[dependencies]
anyhow = "=1.0.104"
config = { version = "=0.13.4", default-features = false }
file-owner = "=0.1.2"
notify = "=4.0.18"
notify-rust = "=4.18.2"
sys-mount = { version = "=3.1.1", default-features = false }
tokio = { version = "=1.54.1", features = ["fs", "macros", "rt-multi-thread"] }
tracing = "=0.1.44"
tracing-subscriber = { version = "=0.3.23", features = ["env-filter"] }
users = "=0.11.0"

[dev-dependencies]
regex = "=1.13.1"
