[package]
name = "thump"
version = "0.1.0"
edition = "2021"
publish = false

[dependencies]
lofty = "*"
rhai = "*"
rodio = "0.19"
