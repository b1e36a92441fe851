[package]
name = "transcode_tree"
version = "0.1.0"
edition = "2021"
publish = false

[dependencies]
anyhow = "1"
clap = { version = "4", features = ["derive"] }
ignore = "0.4"
num_cpus = "1"
pathdiff = "0.2"
