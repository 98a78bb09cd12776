[package]
name = "gfx_relay"
version = "0.1.0"
edition = "2021"
publish = false

[dependencies]
async-channel = "*"
log = "*"
miniquad = "*"
simplelog = "*"
smol = "*"
