[package]
name = "esp32_ble_proxy"
version = "0.1.0"
edition = "2021"
publish = false

[dependencies]
anyhow = "=1.0.104"
bytes = "=1.12.1"
chrono = "=0.4.45"
embedded-svc = "=0.27.1"
esp32-nimble = "=0.6.1"
esp-idf-hal = "=0.43.1"
esp-idf-svc = "=0.48.1"
esp-idf-sys = "=0.34.1"
heapless = "=0.8.0"
hex = "=0.4.3"
lazy_static = "=1.5.1"
log = "=0.4.35"
prost = "=0.14.4"
serde = { version = "=1.0.229", features = ["derive"] }
serde_json = "=1.0.154"
tokio = { version = "=1.54.1", features = ["rt", "sync", "time", "macros", "net", "io-util"] }
toml-cfg = "=0.2.0"
uuid = { version = "=1.29.0", features = ["v4"] }
