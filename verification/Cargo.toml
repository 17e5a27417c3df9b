[package]
name = "obs-rs"
version = "0.5.0"
edition = "2021"
publish = false

[dependencies]
log = "0.4"
shellexpand = "3"
num-traits = "0.2"
enumflags2 = "0.7"
