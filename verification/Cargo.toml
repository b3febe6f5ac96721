[package]
name = "nvidia_video_codec"
version = "0.1.0"
edition = "2021"
publish = false

[dependencies]
libloading = "0.8"
tracing = "0.1"
