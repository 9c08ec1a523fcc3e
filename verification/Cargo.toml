[package]
name = "c_header_gen"
version = "0.1.0"
edition = "2021"
publish = false

[dependencies]
interoptopus = "*"
