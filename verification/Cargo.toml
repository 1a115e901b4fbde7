[package]
name = "render_system"
version = "0.1.0"
edition = "2021"
publish = false

[dependencies]
freetype-rs = "*"
gl = "*"
image = { version = "*", default-features = false }
nalgebra = "*"
nalgebra-glm = "*"
sdl2 = "*"
