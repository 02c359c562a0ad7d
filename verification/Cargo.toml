[package]
name = "yambot"
version = "0.1.0"
edition = "2021"
publish = false

[dependencies]
md5 = "0.8"
urlencoding = "2.1"
chrono = { version = "0.4", default-features = false, features = ["std", "clock", "serde"] }
serde = { version = "1", features = ["derive"] }
toml = "0.8"
tokio = { version = "1", features = ["rt-multi-thread", "macros", "sync", "time", "fs"] }
reqwest = { version = "0.12", default-features = false, features = ["rustls-tls"] }
rodio = "0.21"
log = "0.4"
env_logger = { version = "0.11", default-features = false }
project-root = "*"
egui = { version = "0.32", default-features = false }
