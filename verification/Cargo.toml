[package]
name = "ui_prefab"
version = "0.1.0"
edition = "2021"
publish = false

[dependencies]
serde = { version = "=1.0.229", features = ["derive"] }
ron = "=0.8.1"
specs = { version = "*", default-features = false }
