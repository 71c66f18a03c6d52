[package]
name = "idle_watch"
version = "0.1.0"
edition = "2021"
publish = false

[dependencies]
chrono = { version = "0.4", default-features = false, features = ["std"] }
x11 = { version = "2", features = ["xlib", "xinput"] }
