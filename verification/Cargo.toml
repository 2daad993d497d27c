[package]
name = "training_modpack"
version = "0.1.0"
edition = "2021"
publish = false

[dependencies]
anyhow = "=1.0.104"
byteflags = { version = "=0.1.0", features = ["rand"] }
chrono = "=0.4.45"
serde = { version = "=1.0.229", features = ["derive"] }
serde_json = "=1.0.154"
toml = "=0.5.11"
structopt = "=0.3.26"
itertools = "=0.15.0"
