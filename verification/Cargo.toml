[package]
name = "game_of_life"
version = "0.1.0"
edition = "2021"
publish = false

[dependencies]
rand = "0.8"
pixels = "0.11"
winit = "0.28"
winit_input_helper = "0.14"
rayon = "1"
log = "0.4"
env_logger = "0.10"
