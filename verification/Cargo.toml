[package]
name = "mitos-power"
version = "0.1.0"
edition = "2021"
publish = false

[dependencies]
chrono = { version = "=0.4.45", features = ["serde"] }
uuid = { version = "=1.29.1", features = ["v4", "serde"] }
serde = { version = "=1.0.229", features = ["derive"] }
serde_json = "=1.0.154"
toml = "=1.2.1"
thiserror = "=2.0.21"
tokio = { version = "=1.54.1", features = ["sync", "signal", "rt", "macros", "time"] }
udev = "=0.9.3"
