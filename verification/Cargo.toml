[package]
name = "glprep"
version = "0.1.0"
edition = "2021"
publish = false

[dependencies]
glam = "=0.34.1"
glfw = "=0.61.0"
glow = "=0.18.0"
image = { version = "=0.25.10", default-features = false, features = ["bmp", "dds", "exr", "ff", "gif", "hdr", "ico", "jpeg", "png", "pnm", "qoi", "tga", "tiff", "webp"] }
imgui-glfw-rs = { version = "=0.13.1", features = ["opengl"] }
tobj = "=4.0.5"
