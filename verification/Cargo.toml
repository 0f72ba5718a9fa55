[package]
name = "dbus_api"
version = "0.1.0"
edition = "2021"
publish = false

[dependencies]
dbus = "=0.6.5"
libdbus-sys = { version = "=0.2.7", features = ["vendored"] }
log = "=0.4.34"
