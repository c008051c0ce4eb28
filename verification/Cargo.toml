[package]
name = "voicepipe"
version = "0.1.0"
edition = "2021"
publish = false

[dependencies]
walkdir = "*"
clap = { version = "*", features = ["derive"] }
serde = "*"
serde_derive = "*"
serde_json = "*"
tokio = { version = "*", features = ["macros", "rt-multi-thread"] }
reqwest = { version = "*", default-features = false }
futures = "*"
crossbeam = "*"
bytes = "*"
cpal = "*"
deepgram = "*"
