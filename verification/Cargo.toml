[package]
name = "emoji_panel"
version = "0.1.0"
edition = "2021"
publish = false

[dependencies]
tauri = { version = "2", default-features = false }
tauri-plugin-log = "2"
log = "0.4"
cocoa = "0.26"
objc = "0.2"
