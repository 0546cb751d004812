[package]
name = "dark_notify"
version = "0.1.0"
edition = "2021"
publish = false

[dependencies]
clap = { version = "4", features = ["derive"] }
cocoa = "0.24"
objc = "0.2"
libc = "0.2"
lazy_static = "1"
