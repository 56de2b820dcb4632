[package]
name = "flight_core"
version = "0.1.0"
edition = "2021"
publish = false

[dependencies]
oorandom = "11.1"
cgmath = "0.18"
winit = "0.28"
tobj = "4.0"
anyhow = "1"
