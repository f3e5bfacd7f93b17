[package]
name = "dvs"
version = "0.1.0"
edition = "2021"
publish = false

[dependencies]
blake3 = { version = "1", features = ["rayon"] }
glob = "0.3"
pathdiff = "0.2"
serde = { version = "1", features = ["derive"] }
serde_json = "1"
serde_yaml = "0.9"
chrono = "0.4"
csv = "1"
memmap2 = "0.9"
walkdir = "2"
xdg = "2"
users = "0.11"
file-owner = "0.1"
path-absolutize = "3"
extendr-api = "*"
