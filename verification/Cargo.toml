[package]
name = "oxideo_organizer"
version = "0.1.0"
edition = "2021"
publish = false

[dependencies]
kamadak-exif = "*"
walkdir = "*"
rayon = "*"
indicatif = "*"
clap = { version = "*", features = ["derive"] }
anyhow = "*"
tracing = "*"

[dev-dependencies]
chrono = "*"
