[package]
name = "niri_hdr"
version = "0.1.0"
edition = "2021"
publish = false

[dependencies]
anyhow = "=1.0.104"
log = "=0.4.35"
libdisplay-info = { version = "=0.3.0", features = ["v0_2"] }
smithay = { version = "=0.7.0", default-features = false, features = ["wayland_frontend"] }
