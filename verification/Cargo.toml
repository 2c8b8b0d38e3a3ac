[package]
name = "modpack"
version = "0.1.0"
edition = "2021"
publish = false

[dependencies]
serde_json = "1"
walkdir = "2"
zip = { version = "0.6", default-features = false, features = ["deflate", "time"] }
dirs = "*"
open = "*"
git2 = { version = "*", default-features = false }
chrono = { version = "0.4", default-features = false, features = ["clock"] }
