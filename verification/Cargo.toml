[package]
name = "autofisher"
version = "0.1.0"
edition = "2021"
publish = false

[dependencies]
anyhow = "=1.0.104"
ashpd = { version = "=0.13.13", features = ["remote_desktop", "screencast"] }
clap = { version = "=4.6.7", features = ["derive"] }
opencv = "=0.101.1"
serde = { version = "=1.0.229", features = ["derive"] }
tokio = { version = "=1.54.1", features = ["macros", "rt-multi-thread", "signal", "time", "sync"] }
tracing = "=0.1.44"
tracing-subscriber = "=0.3.23"
tract-onnx = "=0.23.9"
