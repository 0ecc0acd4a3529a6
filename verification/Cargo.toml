[package]
name = "pollnet"
version = "0.1.0"
edition = "2021"
publish = false

[dependencies]
smoltcp = "0.8"
rand_core = "0.6"
embedded-io = "0.3"
log = "0.4"
