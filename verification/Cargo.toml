[package]
name = "infolauncher"
version = "0.1.0"
edition = "2021"
publish = false

[dependencies]
vulkano = "=0.35.2"
wayland-client = { version = "=0.31.15", features = ["system", "dlopen"] }
wayland-protocols = { version = "=0.32.13", features = ["client"] }
wayland-protocols-wlr = { version = "*", features = ["client"] }
