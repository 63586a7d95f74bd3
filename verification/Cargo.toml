[package]
name = "ghostlayer"
version = "0.1.0"
edition = "2021"
publish = false

[dependencies]
base64 = "0.22"
x25519-dalek = { version = "2", features = ["static_secrets", "getrandom"] }
chacha20poly1305 = "0.10"
rand_core = { version = "0.9", features = ["os_rng"] }
serde = { version = "1", features = ["derive"] }
serde_json = "1"
wasm-bindgen = "0.2"
wasm-bindgen-futures = "0.4"
web-sys = { version = "0.3", features = ["Window", "Navigator", "Clipboard"] }
clap = { version = "4", features = ["derive"] }
image = { version = "0.25", default-features = false, features = ["png"] }
anyhow = "1"
