[package]
name = "yasunori_md"
version = "0.1.0"
edition = "2021"
publish = false

[dependencies]
anyhow = "=1.0.104"
camino = "=1.2.6"
chrono = "=0.4.45"
clap = { version = "=4.6.7", features = ["derive"] }
toml = "=1.1.7"
