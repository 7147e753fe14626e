[package]
name = "bluebus"
version = "0.1.0"
edition = "2021"
publish = false

[dependencies]
zbus = { version = "=5.19.0", features = ["tokio"] }
tokio = { version = "=1.53.2", features = ["rt-multi-thread", "sync", "macros", "time"] }
futures = "=0.3.34"
serde = "=1.0.229"
