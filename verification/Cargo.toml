[package]
name = "platypus-powder-ping"
version = "0.1.0"
edition = "2021"
publish = false

[dependencies]
anyhow = "1"
clap = { version = "4", features = ["derive"] }
indicatif = { version = "*", features = ["rayon"] }
rayon = "1"
serde = { version = "1", features = ["derive"] }
serde_json = "1"
tabled = "*"
toml = "*"
