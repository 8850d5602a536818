[package]
name = "gemma_infer"
version = "0.1.0"
edition = "2021"
publish = false

[dependencies]
safetensors = "*"
ndarray = "*"
memmap2 = "*"
serde = { version = "*", features = ["derive"] }
serde_json = "*"
tokenizers = { version = "*", default-features = false, features = ["fancy-regex"] }
