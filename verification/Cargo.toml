[package]
name = "shape_evolution"
version = "0.1.0"
edition = "2021"
publish = false

[dependencies]
futures = "=0.3.34"
futures-util = "=0.3.34"
image = { version = "=0.24.9", default-features = false, features = ["png", "jpeg"] }
imageproc = { version = "=0.23.1", default-features = false }
js-sys = "=0.3.107"
pretty_env_logger = "=0.4.0"
rand = "=0.8.8"
serde = { version = "=1.0.229", features = ["derive"] }
serde_json = "=1.0.154"
tokio = { version = "=1.54.1", features = ["full"] }
tokio-stream = "=0.1.19"
uuid = { version = "=1.29.0", features = ["v4"] }
warp = "=0.3.7"
wasm-bindgen = "=0.2.130"
web-sys = { version = "=0.3.107", features = ["ImageData", "console"] }
