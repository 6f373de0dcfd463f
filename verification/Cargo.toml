[package]
name = "esp_led"
version = "0.1.0"
edition = "2021"
publish = false

[dependencies]
embassy-executor = "=0.7.0"
embassy-time = "=0.4.0"
esp-hal = { version = "=1.0.0", features = ["esp32c3"] }
esp-println = { version = "=0.16.1", features = ["esp32c3"] }
