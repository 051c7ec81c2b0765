[package]
name = "nebulizer"
version = "0.1.0"
edition = "2021"
publish = false

[dependencies]
rand = "0.8"
midly = { version = "0.5", default-features = false, features = ["std"] }
rodio = { version = "0.17", default-features = false, features = ["wav", "flac", "vorbis"] }
midir = "0.9"
strum = { version = "0.26", features = ["derive"] }
