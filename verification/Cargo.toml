[package]
name = "x11-alternate-focus"
version = "0.1.0"
edition = "2021"
publish = false

[dependencies]
tokio = { version = "1", features = ["rt", "macros", "sync", "net"] }
xcb = { version = "1", features = ["xkb"] }
