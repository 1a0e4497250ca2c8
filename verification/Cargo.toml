[package]
name = "simple_ci"
version = "0.1.0"
edition = "2021"
publish = false

[dependencies]
argh = "*"
git2 = { version = "*", default-features = false }
indicatif = "*"
rand = "*"
regex = "*"
serde = { version = "*", features = ["derive"] }
serde_json = "*"
tokio = { version = "*", features = ["rt-multi-thread", "macros", "net", "io-util", "time"] }
walkdir = "*"
