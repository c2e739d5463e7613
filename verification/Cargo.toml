[package]
name = "rendercore"
version = "0.1.0"
edition = "2021"
publish = false

[dependencies]
gfx-hal = "=0.3.1"
gfx-backend-empty = { version = "=0.3.1", features = ["winit"] }
winit = "=0.19.5"
image = "=0.21.3"
tobj = "=0.1.12"
nalgebra-glm = "=0.4.2"
log = "=0.4.34"
env_logger = "=0.6.2"
