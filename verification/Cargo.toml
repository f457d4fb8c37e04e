[package]
name = "vga_terminal"
version = "0.1.0"
edition = "2021"
publish = false

[dependencies]
lazy_static = "1"
spin = "*"
volatile = "0.2"
