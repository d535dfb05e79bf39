[package]
name = "lrcget"
version = "0.1.0"
edition = "2021"
publish = false

[dependencies]
regex = "1"
rusqlite = { version = "*", features = ["bundled"] }
anyhow = "1"
indoc = "2"
