[package]
name = "kiss3d"
version = "0.1.0"
edition = "2021"
publish = false

[dependencies]
rusttype = "0.9"
serde = { version = "1", features = ["derive"] }
image = { version = "0.25", default-features = false, features = ["png"] }
egui = "*"
winit = "0.30"
