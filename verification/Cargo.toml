[package]
name = "coffee_shop"
version = "0.1.0"
edition = "2021"
publish = false

[dependencies]
anyhow = "1"
crossbeam = "0.8"
crossterm = "*"
serde = { version = "1", features = ["derive"] }
serde_json = "1"
