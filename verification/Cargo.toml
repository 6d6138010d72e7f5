[package]
name = "remoc"
version = "0.1.0"
edition = "2021"
publish = false

[dependencies]
byteorder = "1"
bytes = "1"
uuid = { version = "1", features = ["v4"] }
opentelemetry = "*"
tracing = "0.1"
tracing-opentelemetry = "*"
tokio = { version = "1", features = ["sync", "rt", "macros", "time"] }
tokio-util = "0.7"
futures = "0.3"
serde = { version = "1", features = ["derive"] }
wokio = "*"
