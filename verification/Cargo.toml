[package]
name = "macgyver"
version = "0.1.0"
edition = "2021"
publish = false

[dependencies]
image = { version = "0.25", default-features = false, features = ["jpeg", "png", "webp", "bmp", "tiff", "gif"] }
lopdf = "*"
chrono = { version = "0.4", features = ["serde"] }
serde = { version = "1", features = ["derive"] }
serde_json = "1"
tokio = { version = "1", features = ["fs", "time", "rt", "macros"] }
log = "0.4"
env_logger = "*"
indicatif = "*"
dirs-next = "2"
thiserror = "1"
