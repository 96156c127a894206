[package]
name = "loudness"
version = "0.1.0"
edition = "2021"
publish = false

[dependencies]
minimp3 = "0.5"
