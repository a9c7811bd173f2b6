[package]
name = "webgpu_actor"
version = "0.1.0"
edition = "2021"
publish = false

[dependencies]
perf-event = "*"
