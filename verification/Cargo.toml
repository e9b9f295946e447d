[package]
name = "octodaemon"
version = "0.1.0"
edition = "2021"
publish = false

[dependencies]
bollard = "0.14"
uuid = { version = "1", features = ["v4"] }
sysinfo = "0.29"
tokio = { version = "1", features = ["full"] }
tokio-stream = { version = "0.1", features = ["time"] }
futures = "0.3"
tracing = "0.1"
tracing-subscriber = "0.3"
lazy_static = "1"
colored = "2"
