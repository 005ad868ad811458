[package]
name = "glow_pipeline"
version = "0.1.0"
edition = "2021"
publish = false

[dependencies]
glium = { version = "*", default-features = false }
log = "0.4"
