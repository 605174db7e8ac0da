[package]
name = "fabric_install"
version = "0.1.0"
edition = "2021"
publish = false

[dependencies]
serde = { version = "1", features = ["derive"] }
serde_json = "1"
tokio = { version = "1", features = ["fs"] }
reqwest = { version = "0.11", default-features = false, features = ["json"] }
