[package]
name = "rge_math"
version = "0.1.0"
edition = "2021"
publish = false

[dependencies]
float-cmp = "0.9"
vulkano = "0.32"
vulkano-win = "0.32"
winit = "0.27"
