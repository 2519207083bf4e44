[package]
name = "multimixer_128"
version = "0.1.0"
edition = "2021"
publish = false

[dev-dependencies]
hex = "0.4"
