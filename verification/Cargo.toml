[package]
name = "hostconf"
version = "0.1.0"
edition = "2021"
publish = false

[dependencies]
sha1 = "*"
sha2 = "*"
md-5 = "*"
serde = { version = "*", features = ["derive"] }
toml = "*"
anyhow = "*"
