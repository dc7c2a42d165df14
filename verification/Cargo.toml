[package]
name = "thespis_impl"
version = "0.1.0"
edition = "2021"
publish = false

[dependencies]
futures = "0.3"
regex = "1"
rand = "0.8"
twox-hash = "1"
serde = { version = "1", features = ["derive"] }
serde_cbor = "0.11"
thespis = "0.1"
async_executors = "0.4"
tracing = "0.1"
tracing-futures = "0.2"
oneshot = "0.1"
wasm-bindgen-futures = "0.4"
