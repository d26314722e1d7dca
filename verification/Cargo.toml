[package]
name = "nes_emu"
version = "0.1.0"
edition = "2021"
publish = false

[dependencies]
sdl2 = "0.35"
log = "0.4"
env_logger = "0.10"
once_cell = "1"
