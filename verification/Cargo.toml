[package]
name = "learn_opengl"
version = "0.1.0"
edition = "2021"
publish = false

[dependencies]
gl = "=0.14.0"
glfw = "=0.63.0"
