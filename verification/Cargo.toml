[package]
name = "clipboard-master"
version = "4.0.0"
edition = "2021"
publish = false

[dependencies]
wayland-client = "0.31"
wayland-protocols = { version = "0.32", features = ["client", "staging"] }
wayland-protocols-wlr = { version = "0.3", features = ["client"] }
