[package]
name = "spotify_image_search"
version = "0.1.0"
edition = "2021"
publish = false

[dependencies]
edit-distance = "*"
urlencoding = "*"
anyhow = "*"
audiotags = "*"
clap = { version = "*", features = ["derive"] }
homedir = "*"
reqwest = { version = "*", default-features = false }
serde_json = "*"
thiserror = "*"
tokio = { version = "*", features = ["macros", "rt-multi-thread"] }
walkdir = "*"
