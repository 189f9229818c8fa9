[package]
name = "rusx"
version = "0.1.0"
edition = "2021"
publish = false

[dependencies]
async-trait = "0.1"
oauth2 = "4.4"
reqwest = { version = "0.11", default-features = false, features = ["json", "rustls-tls"] }
serde = { version = "1", features = ["derive"] }
serde_json = "1"
thiserror = "1"
urlencoding = "2"
