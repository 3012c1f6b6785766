[package]
name = "foxboard"
version = "0.1.0"
edition = "2021"
publish = false

[dependencies]
rust-argon2 = "=3.0.0"
base64 = "=0.23.1"
chrono = "=0.4.45"
rand = "=0.8.8"
actix-web = { version = "=4.15.0", default-features = false, features = ["macros"] }
serde = { version = "=1.0.229", features = ["derive"] }
clap = { version = "=4.6.7", features = ["derive", "env"] }
env_logger = "=0.11.11"
log = "=0.4.34"
uuid = { version = "=1.27.0", features = ["serde"] }
