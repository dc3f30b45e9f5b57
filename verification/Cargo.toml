[package]
name = "open_g_hub_core"
version = "0.1.0"
edition = "2021"
publish = false

[dependencies]
hidapi = "=2.6.7"
clap = { version = "=4.6.7", features = ["derive"] }
