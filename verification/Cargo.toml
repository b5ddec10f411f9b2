[package]
name = "esp32s3_board"
version = "0.1.0"
edition = "2021"
publish = false

[dependencies]
heapless = "=0.8.0"
smart-leds = "=0.4.0"
anyhow = "*"
log = "*"
embedded-svc = "*"
embedded-graphics = "*"
embedded-hal = "*"
embedded-hal-bus = "*"
mipidsi = "*"
esp-idf-svc = "*"
esp32-nimble = "*"
ws2812-esp32-rmt-driver = "*"
