[package]
name = "fractal_renderer"
version = "0.1.0"
edition = "2021"
publish = false

[dependencies]
image = { version = "0.24", default-features = false, features = ["png"] }
bytemuck = "1"
wgpu = "0.16"
actix-web = { version = "4", default-features = false, features = ["macros"] }
futures = "0.3"
dotenvy = "0.15"
env_logger = { version = "0.10", default-features = false }
log = "0.4"
serde = { version = "1", features = ["derive"] }
serde_derive = "1"
