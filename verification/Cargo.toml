[package]
name = "smn_mora"
version = "0.1.0"
edition = "2021"
publish = false

[dependencies]
sha2 = "*"
rand_chacha = "*"
clap = { version = "*", features = ["derive"] }
serde = { version = "*", features = ["derive"] }
toml = "*"
dirs = "*"
rpassword = "*"
