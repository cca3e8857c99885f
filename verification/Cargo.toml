[package]
name = "capture"
version = "0.1.0"
edition = "2021"
publish = false

[dependencies]
anyhow = "=1.0.104"
image = "=0.25.10"
fast_image_resize = "=5.5.0"
xcap = "=0.9.8"
display-info = "=0.5.10"
screencapturekit = "=0.3.5"
core-media-rs = "=0.3.5"
core-foundation = "=0.10.1"
windows-capture = "=1.4.4"
