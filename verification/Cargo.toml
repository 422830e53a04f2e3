[package]
name = "sv_arbiter"
version = "0.1.0"
edition = "2021"
publish = false

[dependencies]
crc32fast = "*"
pnet = "*"
tokio = { version = "*", features = ["macros", "rt-multi-thread", "time", "signal"] }
chrono = "*"
log = "*"
env_logger = "*"
serde = { version = "*", features = ["derive"] }
