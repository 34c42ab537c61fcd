[package]
name = "channel_remap"
version = "0.1.0"
edition = "2021"
publish = false

[dependencies]
image = { version = "=0.25.10", default-features = false, features = ["bmp", "dds", "ff", "gif", "hdr", "ico", "jpeg", "png", "pnm", "qoi", "tga", "tiff", "webp"] }
imageproc = { version = "=0.25.1", default-features = false }
clap = { version = "=4.6.7", features = ["derive"] }
dialoguer = "=0.11.0"
native-dialog = "=0.7.0"
