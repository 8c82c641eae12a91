[package]
name = "compbench"
version = "0.1.0"
edition = "2021"
publish = false

[dependencies]
flate2 = "1"
lz4 = "1"
lz4_flex = "0.11"
rand = "0.8"
