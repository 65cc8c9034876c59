[package]
name = "ravendb_client"
version = "0.1.0"
edition = "2021"
publish = false

[dependencies]
url = "2"
rand = "0.8"
reqwest = { version = "0.11", default-features = false, features = ["rustls-tls", "json"] }
tokio = { version = "1", features = ["macros", "rt-multi-thread", "sync", "time"] }
serde = { version = "1", features = ["derive"] }
anyhow = "1"
thiserror = "1"
