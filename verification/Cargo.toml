[package]
name = "graphics_examples"
version = "0.1.0"
edition = "2021"
publish = false

[dependencies]
piston = "*"
pistoncore-glfw_window = "*"
pistoncore-sdl2_window = "*"
cgmath = "*"
gfx = "*"
gfx_device_gl = "*"
gfx_macros = "*"
gl = "*"
hgl = "*"
