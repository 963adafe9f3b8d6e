[package]
name = "bas_veeg_arc"
version = "0.3.0"
edition = "2021"
publish = false

[dependencies]
macroquad = "0.4"
serde = { version = "1", features = ["derive"] }
serde_json = "1"
ahash = "0.8"
bitflags = "2"
rand = "0.8"
