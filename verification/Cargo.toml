[package]
name = "basin_admin"
version = "0.1.0"
edition = "2021"
publish = false

[dependencies]
humantime = "=2.4.0"
toml = "=0.8.23"
dirs = "=5.0.1"
streamstore = "=0.21.1"
serde = { version = "=1.0.229", features = ["derive"] }
thiserror = "=1.0.69"
clap = { version = "=4.6.7", features = ["derive"] }

[dev-dependencies]
tokio = { version = "=1.54.1", features = ["rt"] }
