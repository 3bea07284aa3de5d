[package]
name = "stopwatch"
version = "0.1.0"
edition = "2021"
publish = false

[dependencies]
time = "0.3"
web-sys = { version = "0.3", features = ["Performance", "Window"] }
