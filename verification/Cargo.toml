[package]
name = "kubelens"
version = "0.1.0"
edition = "2021"
publish = false

[dependencies]
kube = "=0.98.0"
k8s-openapi = { version = "=0.24.0", features = ["latest"] }
serde = { version = "=1.0.229", features = ["derive"] }
serde_json = "=1.0.154"
tokio = { version = "=1.54.1", features = ["time", "rt", "macros"] }
tokio-util = "=0.7.20"
futures = "=0.3.34"
anyhow = "=1.0.104"
arboard = "=3.7.0"
leptos = { version = "0.7", features = ["csr"] }
wasm-bindgen = "0.2"
js-sys = "0.3"
serde-wasm-bindgen = "0.6"
serde_yaml = "0.9"
