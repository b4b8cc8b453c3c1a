[package]
name = "plant_station"
version = "0.1.0"
edition = "2021"
publish = false

[dependencies]
anyhow = "1"
async-lock = "2"
async-watch = "0.3"
bme280-rs = "*"
chrono = "=0.4.45"
dotenvy_macro = "0.15"
edge-executor = "*"
embedded-svc = "0.26"
esp-idf-hal = "0.42"
esp-idf-svc = "0.47"
esp-idf-sys = "0.33"
esp-ota = "*"
futures = "0.3"
log = "0.4"
serde_json = "=1.0.154"
thiserror = "1"
