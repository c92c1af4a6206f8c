[package]
name = "audio_bridge"
version = "0.1.0"
edition = "2021"
publish = false

[dependencies]
anyhow = "*"
crossterm = "*"
env_logger = "*"
log = "*"
fmod-oxide = "*"
fmod-audio-sys = "*"
