[package]
name = "nightmare_engine"
version = "0.1.0"
edition = "2021"
publish = false

[dependencies]
num_cpus = "=1.17.0"
image = { version = "=0.24.9", default-features = false, features = ["png"] }
winit = "=0.27.5"
glam = "=0.22.0"
rand = "=0.8.8"
instant = "=0.1.13"
tracing = "=0.1.44"
tracing-log = "=0.1.4"
tracing-subscriber = { version = "=0.3.23", features = ["env-filter"] }
wgpu = "0.14"
