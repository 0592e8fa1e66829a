[package]
name = "prompt_buffer"
version = "0.1.0"
edition = "2021"
publish = false

[dependencies]
ropey = "1"
web-sys = { version = "0.3", features = ["KeyboardEvent"] }
