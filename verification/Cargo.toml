[package]
name = "pngcrop"
version = "0.1.0"
edition = "2021"
publish = false

[dependencies]
docopt = "1.1"
image = "0.24"
serde = { version = "1.0", features = ["derive"] }
