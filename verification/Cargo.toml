[package]
name = "v4l2_capture"
version = "0.1.0"
edition = "2021"
publish = false
