[package]
name = "lora_layers"
version = "0.1.0"
edition = "2021"
publish = false

[dependencies]
candle-core = "*"
candle-nn = "*"
serde = { version = "1", features = ["derive"] }
