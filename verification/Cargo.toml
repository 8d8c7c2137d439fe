[package]
name = "openshell"
version = "0.1.0"
edition = "2021"
publish = false

[dependencies]
libc = "0.2"
miette = "7"
serde = { version = "1", features = ["derive"] }
serde_json = "1"
tokio = { version = "1", features = ["rt", "macros", "net", "process", "signal", "sync", "time"] }
tonic = { version = "0.12", features = ["tls"] }
tracing = "0.1"
