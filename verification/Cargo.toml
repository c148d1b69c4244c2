[package]
name = "surrcli"
version = "0.1.0"
edition = "2021"
publish = false

[dependencies]
anyhow = "*"
atty = "*"
base64 = "*"
clap = { version = "*", features = ["derive"] }
colored = "*"
comfy-table = "*"
dirs = "*"
reqwest = { version = "*", default-features = false, features = ["blocking"] }
rpassword = "*"
rusqlite = { version = "*", features = ["bundled"] }
rustyline = "*"
serde = { version = "*", features = ["derive"] }
serde_json = "*"
