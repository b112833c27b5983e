[package]
name = "videofinder"
version = "0.1.0"
edition = "2021"
publish = false

[dependencies]
rusqlite = { version = "*", features = ["bundled"] }
reqwest = { version = "*", default-features = false }
tokio = { version = "*", features = ["rt", "macros"] }
