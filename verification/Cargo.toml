[package]
name = "vplace"
version = "0.1.0"
edition = "2021"
publish = false

[dependencies]
actix = "*"
actix-cors = "*"
actix-web = "*"
actix-web-actors = "*"
actix-web-httpauth = "*"
base64 = "*"
chrono = "*"
dotenvy = "*"
env_logger = "*"
futures = "*"
log = "*"
mimalloc = "*"
num_cpus = "*"
redis = { version = "*", features = ["tokio-comp", "connection-manager"] }
scylla = "*"
serde = { version = "*", features = ["derive"] }
serde_json = "*"
tokio = { version = "*", features = ["macros"] }
uuid = { version = "*", features = ["serde", "v4"] }
