[package]
name = "shimmer"
version = "0.1.0"
edition = "2021"
publish = false

[dependencies]
crossterm = "0.27"
glow = "*"
glutin = "0.31"
glutin-winit = "0.4"
raw-window-handle = "0.5"
thiserror = "1"
tracing = "0.1"
winit = "0.29"
