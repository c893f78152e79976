[package]
name = "price_monitor"
version = "0.1.0"
edition = "2021"
publish = false

[dependencies]
anyhow = "=1.0.104"
chrono = { version = "=0.4.45", default-features = false, features = ["clock"] }
colored = "=2.2.0"
crossbeam-channel = "=0.5.17"
crossterm = "=0.27.0"
headless_chrome = { version = "=1.0.22", default-features = false, features = ["offline"] }
num-traits = "=0.2.19"
once_cell = "=1.21.4"
serde = { version = "=1.0.229", features = ["derive"] }
serde_json = "=1.0.154"
