[package]
name = "emoji_picker"
version = "0.1.0"
edition = "2021"
publish = false

[dependencies]
anyhow = "1"
attohttpc = { version = "*", features = ["json"] }
clipboard-ext = "*"
serde = { version = "1", features = ["derive"] }
serde_json = "1"
skim = "0.8"
