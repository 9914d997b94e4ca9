[package]
name = "frame_comp"
version = "0.1.0"
edition = "2021"
publish = false

[dependencies]
anyhow = "=1.0.104"
log = "=0.4.34"
pretty_env_logger = "=0.5.0"
rtcmp = "=0.1.0"
vulkanalia = "=0.31.0"
winit = "=0.30.13"
