[package]
name = "gl-thin"
version = "0.1.0"
edition = "2021"
publish = false

[dependencies]
openxr-sys = "*"
openxr = "*"
gl = "*"
log = "*"
itertools = "*"
egli = "*"
glutin = "*"
winit = "*"
raw-window-handle = "*"
android-activity = "*"
android_logger = "*"
png = "*"
rusttype = "*"
