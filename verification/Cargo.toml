[package]
name = "go_installer"
version = "0.1.0"
edition = "2021"
publish = false

[dependencies]
anyhow = "1"
flate2 = "1"
indicatif = "0.17"
serde = { version = "1", features = ["derive"] }
sha2 = "0.10"
tar = "0.4"
ureq = { version = "2", features = ["json"] }
