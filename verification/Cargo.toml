[package]
name = "airgradient_monitor"
version = "0.1.0"
edition = "2021"
publish = false

[dependencies]
chrono = "0.4"
config = "*"
futures = "0.3"
influxdb2 = "*"
reqwest = { version = "*", features = ["json"] }
serde = { version = "1", features = ["derive"] }
tokio = { version = "1", features = ["full"] }

[dev-dependencies]
serde_json = "1"
