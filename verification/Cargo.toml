[package]
name = "miobot"
version = "0.1.0"
edition = "2021"
publish = false

[dependencies]
chrono = "0.4"
regex = "1"
serde_json = "1"
serde = { version = "1", features = ["derive"] }
serde-aux = "*"
serenity = "0.10"
tokio = { version = "1", features = ["macros", "rt-multi-thread"] }
reqwest = { version = "0.11", features = ["json"] }
lazy_static = "1"
log = "0.4"
env_logger = "*"
kankyo = "*"
sysinfo = "0.29"
