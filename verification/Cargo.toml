[package]
name = "vlc_presence"
version = "0.1.0"
edition = "2021"
publish = false

[dependencies]
discord-rich-presence = "*"
reqwest = { version = "*", default-features = false, features = ["blocking", "json"] }
serde = { version = "*", features = ["derive"] }
serde_json = "*"
