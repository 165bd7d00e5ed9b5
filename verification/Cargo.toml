[package]
name = "mikap3"
version = "0.1.0"
edition = "2021"
publish = false

[dependencies]
embassy-time = "=0.5.1"
embassy-sync = "=0.8.0"
embassy-futures = "=0.1.2"
embassy-executor = "=0.9.1"
embedded-graphics = "=0.8.1"
ssd1306 = "=0.10.0"
heapless = "=0.9.3"
pio = "=0.4.0"
cortex-m-rt = "=0.7.7"
panic-halt = "=1.0.0"
embedded-alloc = "=0.7.0"

[dev-dependencies]
embassy-time = { version = "=0.5.1", features = ["std"] }
