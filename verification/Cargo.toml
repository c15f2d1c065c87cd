[package]
name = "seaport"
version = "0.1.0"
edition = "2021"
publish = false

[dependencies]
md5 = "0.7"
chrono = "0.4"
axum = "0.6"
tokio = { version = "1", features = ["rt-multi-thread", "macros", "fs"] }
tokio-util = { version = "0.7", features = ["io"] }
futures = "0.3"
notify = "6"
walkdir = "2"
serde = { version = "1", features = ["derive"] }
serde_json = "1"
serde_repr = "0.1"
lazy_static = "1"
log = "0.4"
env_logger = { version = "0.10", default-features = false }
config = { version = "0.13", default-features = false, features = ["toml"] }
iced = { version = "0.12", default-features = false }
iced_aw = { version = "0.9", default-features = false, features = ["menu", "modal", "card"] }
