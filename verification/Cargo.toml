[package]
name = "redsky"
version = "0.1.0"
edition = "2021"
publish = false

[dependencies]
atrium-api = "*"
bsky-sdk = "*"
egui = "0.30"
egui_extras = { version = "0.30", features = ["image"] }
reqwest = "0.12"
tokio = { version = "1", features = ["rt-multi-thread"] }
