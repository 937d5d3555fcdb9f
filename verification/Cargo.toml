[package]
name = "clipboard_sync"
version = "0.1.0"
edition = "2021"
publish = false

[dependencies]
sha2 = "*"
shell-words = "*"
semver = "*"
serde = { version = "*", features = ["derive"] }
serde_json = "*"
gethostname = "*"
walkdir = "*"
clipboard-rs = "*"
