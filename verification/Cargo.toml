[package]
name = "ridit"
version = "0.1.0"
edition = "2021"
publish = false

[dependencies]
home = "=0.5.12"
path-absolutize = "=4.0.1"
rayon = "=1.12.0"
serde = { version = "=1.0.229", features = ["derive"] }
serde_json = "1"
shellexpand = "=3.1.2"
symlink = "=0.1.0"
toml = "=1.1.6"
ureq = "=3.4.2"
