[package]
name = "wl_snippets"
version = "0.1.0"
edition = "2021"
publish = false

[dependencies]
dirs = "*"
fuzzy-matcher = "*"
serde = { version = "*", features = ["derive"] }
serde_json = "*"
