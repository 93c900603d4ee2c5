[package]
name = "mrgr"
version = "0.1.0"
edition = "2021"
publish = false

[dependencies]
env_logger = "0.10"
log = "0.4"
once_cell = "1"
skia-safe = "0.70"
softbuffer = "0.4"
winit = "0.29"
