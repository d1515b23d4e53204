[package]
name = "genloop"
version = "0.1.0"
edition = "2021"
publish = false

[dependencies]
anyhow = "*"
candle-core = "*"
candle-nn = "*"
candle-transformers = "*"
clap = { version = "*", default-features = false, features = ["std", "derive", "help", "usage", "error-context"] }
hf-hub = "=0.3.2"
serde_json = "*"
tokenizers = { version = "*", default-features = false, features = ["onig"] }
