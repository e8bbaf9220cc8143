[package]
name = "gpui_bridge"
version = "0.1.0"
edition = "2021"
publish = false

[dependencies]
tiny-skia = "=0.11.4"
winit = { version = "=0.29.15", features = ["rwh_05"] }
raw-window-handle = "=0.5.2"
softbuffer = "=0.4.8"
x11 = { version = "=2.21.0", features = ["xlib"] }
napi = { version = "=3.15.0", features = ["napi6"] }
napi-derive = "=3.6.13"
