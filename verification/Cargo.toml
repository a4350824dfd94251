[package]
name = "catalyst"
version = "0.1.0"
edition = "2021"
publish = false

[dependencies]
ed25519-dalek = "=2.2.0"
rand_chacha = "=0.3.1"
getrandom = "=0.2.17"
ring = "=0.17.14"
base64 = "=0.21.7"
rand = "=0.8.8"
serde = { version = "=1.0.229", features = ["derive"] }
serde_json = "=1.0.154"
lazy_static = "=1.5.1"
actix-web = "=4.18.1"
actix-files = "=0.6.10"
tokio = { version = "=1.54.1", features = ["rt", "macros"] }
warp = "=0.3.7"
wasm-peers-signaling-server = "=0.3.0"
wasm-peers = "=0.4.1"
web-sys = { version = "=0.3.107", features = ["Window", "Document", "Location"] }
wasm-bindgen = "=0.2.130"
serde-wasm-bindgen = "=0.6.5"
cozo = { version = "=0.7.6", default-features = false, features = ["rayon"] }
