[package]
name = "platform2c"
version = "0.1.0"
edition = "2021"
publish = false

[dependencies]
chrono = "=0.4.45"
uuid = { version = "=1.29.0", features = ["v4"] }
regex = "=1.13.1"
sha2 = "=0.10.9"
hex = "=0.4.3"
argon2 = "=0.5.3"
rand = "=0.8.8"
serde = { version = "=1.0.229", features = ["derive"] }
serde_json = { version = "=1.0.154", features = ["raw_value"] }
jsonwebtoken = "=9.3.1"
dirs = "=5.0.1"
dotenvy = "=0.15.7"
tokio = { version = "=1.54.1", features = ["full"] }
tokio-serial = { version = "=5.5.0", default-features = false }
serialport = { version = "=4.10.1", default-features = false }
thiserror = "=2.0.21"
futures = "=0.3.34"
async-trait = "=0.1.92"
tracing = "=0.1.44"
