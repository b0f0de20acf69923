[package]
name = "render_loop"
version = "0.1.0"
edition = "2021"
publish = false

[dependencies]
cgmath = "=0.17.0"
glfw = "=0.41.0"
luminance = "=0.43.2"
luminance-derive = "=0.6.3"
luminance-front = "=0.3.1"
luminance-glfw = "=0.14.4"
luminance-windowing = "=0.9.3"
