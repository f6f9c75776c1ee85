[package]
name = "tracker"
version = "0.1.0"
edition = "2021"
publish = false

[dependencies]
anyhow = "*"
chrono = "*"
dirs = "*"
serde_json = "*"
sgp4 = "*"
ureq = { version = "*", features = ["json"] }
