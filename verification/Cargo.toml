[package]
name = "heartscene"
version = "0.1.0"
edition = "2021"
publish = false

[dependencies]
winit = { version = "0.29", default-features = false, features = ["x11"] }
log = "0.4"
env_logger = { version = "0.11", default-features = false }
bytemuck = { version = "1", features = ["derive"] }
