[package]
name = "njalla_cli"
version = "0.1.0"
edition = "2021"
publish = false

[dependencies]
bitreq = { version = "=0.4.3", features = ["https"] }
clap = { version = "=4.6.7", features = ["derive"] }
colored = "=3.1.1"
dirs = "=7.0.0"
serde = { version = "=1.0.229", features = ["derive"] }
serde_json = "=1.0.154"
tokio = { version = "=1.54.1", features = ["rt", "time"] }
toml = "=1.1.8"
