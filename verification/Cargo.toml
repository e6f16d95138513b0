[package]
name = "vulcan"
version = "0.1.0"
edition = "2021"
publish = false

[dependencies]
chrono = "0.4"
keyring = "*"
keyring-core = "*"
notify = "*"
reqwest = { version = "0.12", default-features = false, features = ["json", "rustls-tls"] }
serde = { version = "1", features = ["derive"] }
serde_json = "1"
sled = "0.34"
thiserror = "*"
tokio = { version = "1", features = ["macros", "rt-multi-thread", "time"] }
