[package]
name = "sia_storage_flutter"
version = "0.1.0"
edition = "2021"
publish = false

[dependencies]
sia_storage = "=0.10.0"
sia_core = "=0.4.2"
sia_mux = "=0.1.1"
hex = "=0.4.3"
chrono = "=0.4.45"
anyhow = "=1.0.104"
bytes = "=1.12.1"
futures-core = "=0.3.34"
tokio = { version = "=1.54.1", features = ["rt", "io-util", "macros"] }
tokio-util = { version = "=0.7.20", features = ["io"] }
flutter_rust_bridge = { version = "=2.13.0", default-features = false }
