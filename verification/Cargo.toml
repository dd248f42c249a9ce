[package]
name = "clipboard_manager_lib"
version = "0.1.0"
edition = "2021"
publish = false

[dependencies]
clap = "2"
clipboard = "0.5"
serde = { version = "1", features = ["derive"] }
serde_json = "1"
sha2 = "0.10"
