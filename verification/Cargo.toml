[package]
name = "aerodisspace_gamepad"
version = "0.1.0"
edition = "2021"
publish = false

[dependencies]
anyhow = "1"
log = "0.4"
esp32-nimble = "*"
esp-idf-hal = "*"
esp-idf-svc = "*"
