[package]
name = "music"
version = "0.1.0"
edition = "2021"
publish = false

[dependencies]
opencv = "0.94"
rodio = "0.20"
