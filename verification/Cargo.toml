[package]
name = "scap"
version = "0.1.0"
edition = "2021"
publish = false

[dependencies]
pipewire = "0.8"
dbus = { version = "0.9", features = ["vendored"] }
