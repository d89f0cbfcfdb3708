[package]
name = "cody_emulator"
version = "0.1.0"
edition = "2021"
publish = false

[dependencies]
itertools = "*"
anyhow = "*"
bytemuck = { version = "*", features = ["derive"] }
clap = { version = "*", features = ["derive"] }
clap-num = "*"
env_logger = "*"
log = "*"
num_enum = "*"
pixels = "*"
serde = { version = "*", features = ["derive"] }
serde_json = "*"
strum = { version = "*", features = ["derive"] }
thiserror = "*"
winit = "0.30"
winit_input_helper = "*"
