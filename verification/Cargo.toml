[package]
name = "spdmlib"
version = "0.1.0"
edition = "2021"
publish = false

[dependencies]
conquer-once = "0.3.2"
log = "0.4"
ring = "0.17"
simple_logger = "*"
