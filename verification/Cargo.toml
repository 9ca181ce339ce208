[package]
name = "atlas_world"
version = "0.1.0"
edition = "2021"
publish = false

[dependencies]
macroquad = "*"
serde = { version = "*", features = ["derive"] }
serde_json = "*"
