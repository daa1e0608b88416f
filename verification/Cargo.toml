[package]
name = "rubric"
version = "0.1.0"
edition = "2021"
publish = false

[dependencies]
harper-core = { version = ">=0.51, <0.54", default-features = false }
regex = "1"
