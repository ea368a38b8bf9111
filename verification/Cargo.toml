[package]
name = "canon_collision"
version = "0.1.0"
edition = "2021"
publish = false

[dependencies]
byteorder = "1"
chrono = "0.4"
spin_sleep = "1"
winit = "0.28"
winit_input_helper = "0.14"
