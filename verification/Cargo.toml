[package]
name = "vga_buffer"
version = "0.1.0"
edition = "2021"
publish = false

[dependencies]
lazy_static = "*"
spin = "*"
volatile = "*"
