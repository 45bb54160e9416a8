[package]
name = "wsi"
version = "0.1.0"
edition = "2021"
publish = false

[dependencies]
gfx-hal = "0.2"
smallvec = "=0.6.14"
failure = "=0.1.8"
log = "=0.4.34"
relevant = "=0.4.2"
derivative = "=1.0.4"
rendy-resource = "0.2"
winit = "=0.18.1"
