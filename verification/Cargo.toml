[package]
name = "spirq_core"
version = "0.1.0"
edition = "2021"
publish = false

[dependencies]
spirv = "0.3"
anyhow = "1"
num-traits = "0.2"
half = "2"
ordered-float = "4"
