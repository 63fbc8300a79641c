[package]
name = "mediadup"
version = "0.1.0"
edition = "2021"
publish = false

[dependencies]
anyhow = "*"
chrono = "*"
clap = { version = "*", features = ["derive"] }
mp4 = "*"
nom-exif = "*"
num-rational = "*"
rexiv2 = "*"
