[package]
name = "enose_relay"
version = "0.1.0"
edition = "2021"
publish = false

[dependencies]
chrono = "*"
tokio = { version = "*", features = ["full"] }
serde = { version = "*", features = ["derive"] }
serde_json = "*"
toml = "*"
dotenv = "*"
anyhow = "*"
futures-util = "*"
influxdb2 = "*"
