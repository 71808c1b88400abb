[package]
name = "erissery_core"
version = "0.1.0"
edition = "2021"
publish = false

[dependencies]
anyhow = "1"
byteorder = "1"
clap = { version = "4", features = ["derive"] }
half = "2"
memmap2 = "0.9"
rayon = "1"
safetensors = "*"
serde = { version = "1", features = ["derive"] }
serde_json = "1"
