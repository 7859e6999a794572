[package]
name = "tauri_plugin_media"
version = "0.1.0"
edition = "2021"
publish = false

[dependencies]
base64 = "=0.22.1"
serde = { version = "=1.0.229", features = ["derive"] }
tauri = { version = "=2.12.5", default-features = false }
dbus = { version = "=0.9.12", features = ["vendored"] }
dbus-crossroads = "=0.5.3"
objc = "=0.2.7"
cocoa = "=0.26.1"
core-graphics = "=0.24.0"
windows = { version = "=0.62.2", features = ["Foundation", "Foundation_Collections", "Media", "Media_Control", "Media_Playback", "Storage_Streams"] }
