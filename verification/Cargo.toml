[package]
name = "threat_detection"
version = "0.1.0"
edition = "2021"
publish = false

[dependencies]
sha2 = "*"
lru = "*"
chrono = "*"
actix-web = "*"
serde = { version = "*", features = ["derive"] }
env_logger = "*"
log = "*"
num_cpus = "*"
