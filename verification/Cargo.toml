[package]
name = "rofi_vscode_mode"
version = "0.1.0"
edition = "2021"
publish = false

[dependencies]
url = "*"
serde_json = "*"
rusqlite = { version = "*", features = ["bundled"] }
dirs = "*"
which = "*"
clap = { version = "*", features = ["derive"] }
