[package]
name = "rover_runtime"
version = "0.1.0"
edition = "2021"
publish = false

[dependencies]
anyhow = "=1.0.104"
futures = "=0.3.34"
nmea-parser = "=0.11.0"
rand = "=0.8.8"
rppal = "=0.22.1"
serde = { version = "1", features = ["derive"] }
tokio = { version = "=1.54.1", features = ["fs", "io-util", "macros", "rt-multi-thread", "signal", "sync", "time"] }
tokio-util = "=0.7.20"
zbus = { version = "=4.4.0", default-features = false, features = ["tokio"] }
