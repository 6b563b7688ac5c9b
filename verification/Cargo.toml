[package]
name = "wayvr"
version = "0.1.0"
edition = "2021"
publish = false

[dependencies]
libc = "=0.2.191"
input = "=0.9.1"
log = "=0.4.35"
anyhow = "=1.0.104"
smithay = { version = "=0.7.0", default-features = false, features = ["wayland_frontend", "desktop"] }
smithay-client-toolkit = { version = "=0.20.0", default-features = false, features = ["xkbcommon"] }
wayland-client = "=0.31.15"
wayland-server = "=0.31.14"
xkeysym = "=0.2.1"
