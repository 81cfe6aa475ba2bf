[package]
name = "karaoke_config"
version = "0.1.0"
edition = "2021"
publish = false

[dependencies]
config = { version = "0.9", default-features = false, features = ["yaml"] }
dirs = "*"
failure = { version = "0.1", default-features = false, features = ["std"] }
lazy_static = "1"
log = "0.4"
serde = { version = "1", features = ["derive"] }
serde_yaml = "0.8"
