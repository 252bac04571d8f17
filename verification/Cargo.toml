[package]
name = "penguin"
version = "0.1.0"
edition = "2021"
publish = false

[dependencies]
anyhow = "*"
clap = { version = "*", features = ["derive"] }
serde = { version = "*", features = ["derive"] }
serde_json = "*"
toml = "*"
md-5 = "=0.10.6"
sha1 = "=0.10.7"
file-hashing = "=0.1.2"
