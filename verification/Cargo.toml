[package]
name = "generic_image_builder"
version = "0.1.0"
edition = "2021"
publish = false

[dependencies]
anyhow = "=1.0.104"
clap = { version = "=4.6.7", features = ["derive"] }
foyer-bytesize = { version = "=2.0.0", features = ["serde"] }
serde = { version = "=1.0.229", features = ["derive"] }
serde_yml = "=0.0.13"
