[package]
name = "stomp_client"
version = "0.1.0"
edition = "2021"
publish = false

[dependencies]
futures = "=0.3.34"
log = "=0.4.35"
sender-sink = "=0.2.1"
stomp-parser = "=0.5.0"
tokio = { version = "=1.54.1", features = ["rt", "sync"] }
tokio-stream = "=0.1.19"
wasm-bindgen-futures = "0.4"
