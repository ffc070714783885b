[package]
name = "caesium_clt"
version = "0.1.0"
edition = "2021"
publish = false

[dependencies]
libcaesium = "*"
imagesize = "*"
kamadak-exif = "*"
clap = { version = "*", features = ["derive"] }
human_bytes = "*"
indicatif = "*"
rayon = "*"
