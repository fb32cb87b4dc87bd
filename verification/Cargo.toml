[package]
name = "tslink"
version = "0.1.0"
edition = "2021"
publish = false

[dependencies]
serde = { version = "1", features = ["derive"] }
serde_json = "1"
uuid = { version = "1", features = ["v4"] }
chrono = { version = "0.4", features = ["serde"] }
rumqttc = "*"
tokio = { version = "1", features = ["full"] }
async-trait = "*"
parking_lot = "*"
thiserror = "*"
tracing = "*"
dashmap = "*"
sqlx = { version = "*", default-features = false }
config = { version = "*", default-features = false, features = ["toml"] }
iceoryx2 = "*"
