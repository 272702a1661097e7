[package]
name = "deepseek_ocr"
version = "0.1.0"
edition = "2021"
publish = false

[dependencies]
anyhow = "1"
candle-core = "0.9"
candle-nn = "0.9"
clap = { version = "4", features = ["derive"] }
image = { version = "0.25", default-features = false, features = ["png", "jpeg"] }
once_cell = "1"
serde = { version = "1", features = ["derive"] }
toml = "0.8"
tracing = "0.1"
