[package]
name = "llmchat"
version = "0.1.0"
edition = "2021"
publish = false

[dependencies]
candle-core = "*"
candle-transformers = "*"
tokenizers = "*"
clap = { version = "*", features = ["derive"] }
log = "*"
pretty_env_logger = "*"
