[package]
name = "nethopper"
version = "0.1.0"
edition = "2021"
publish = false

[dependencies]
once_cell = "1"
rusqlite = { version = "0.32", features = ["bundled"] }
serde = { version = "1", features = ["derive"] }
ssh2 = "0.9"
tauri = { version = "2", default-features = false }
