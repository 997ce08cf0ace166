[package]
name = "loopback_pcm"
version = "0.1.0"
edition = "2021"
publish = false

[dependencies]
bytemuck = "=1.25.2"
futures-util = { version = "=0.3.34", default-features = false, features = ["sink", "std"] }
tokio = { version = "=1.54.1", features = ["rt", "macros", "time", "net"] }
tokio-tungstenite = "=0.30.0"
wasapi = "=0.19.0"
