[package]
name = "smart_tags"
version = "0.1.0"
edition = "2021"
publish = false

[dependencies]
id3 = "*"
mp4ameta = "*"
rayon = "*"
clap = { version = "*", features = ["derive"] }
clap_complete = "*"
