[package]
name = "tauri-nspanel"
version = "0.1.0"
edition = "2021"
publish = false

[dependencies]
block = "0.1"
cocoa = "0.25"
objc = "0.2"
objc-foundation = "0.1"
objc_id = "0.1"
tauri = { version = "2", default-features = false }
