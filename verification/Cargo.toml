[package]
name = "command"
version = "0.1.0"
edition = "2021"
publish = false

[dependencies]
gfx-hal = "0.5"
relevant = "=0.4.2"
derivative = "=1.0.4"
