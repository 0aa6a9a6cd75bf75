[package]
name = "nice_glfw"
version = "0.1.0"
edition = "2021"
publish = false

[dependencies]
glfw = "*"
log = "*"
