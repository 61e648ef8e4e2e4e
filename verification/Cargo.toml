[package]
name = "ytdl"
version = "0.1.0"
edition = "2021"
publish = false

[dependencies]
serde_json = "*"
qstring = "*"
anyhow = "*"
reqwest = { version = "*", default-features = false, features = ["blocking"] }
