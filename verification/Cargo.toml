[package]
name = "caffeinate"
version = "0.1.0"
edition = "2021"
publish = false

[dependencies]
dbus = { version = "*", features = ["vendored"] }
nix = "*"
libc = "*"
pidfd = "*"
futures = "*"
