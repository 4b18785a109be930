[package]
name = "file_dialog"
version = "0.1.0"
edition = "2021"
publish = false

[dependencies]
conrod_core = "=0.76.1"
conrod_piston = "=0.76.1"
gl = "=0.13.0"
piston2d-graphics = "=0.40.0"
piston2d-opengl_graphics = "=0.78.0"
pistoncore-event_loop = "=1.0.0"
pistoncore-input = "=1.0.1"
pistoncore-sdl2_window = "=0.71.0"
pistoncore-window = "=1.0.0"
shader_version = "=0.7.0"
