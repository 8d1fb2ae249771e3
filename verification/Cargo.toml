[package]
name = "sharemark"
version = "0.1.0"
edition = "2021"
publish = false

[dependencies]
anyhow = "1"
arboard = "3"
reqwest = { version = "0.11", default-features = false }
rfd = { version = "0.14", default-features = false, features = ["xdg-portal", "tokio"] }
serde_json = "1"
tokio = { version = "1", features = ["macros", "rt-multi-thread"] }
