[package]
name = "radiance_switch"
version = "0.1.0"
edition = "2021"
publish = false

[dependencies]
image = { version = "=0.25.10", default-features = false, features = ["bmp", "dds", "exr", "ff", "gif", "hdr", "ico", "jpeg", "png", "pnm", "qoi", "tga", "tiff", "webp"] }
imgui = "=0.12.0"
anyhow = "=1.0.104"
log = "=0.4.35"
cfg_aliases = "=0.2.2"
getrandom = "=0.3.4"
