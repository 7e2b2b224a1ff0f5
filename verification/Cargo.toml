[package]
name = "distant_search"
version = "0.1.0"
edition = "2021"
publish = false

[dependencies]
elasticsearch = { version = "8.5.0-alpha.1", default-features = false }
serde = { version = "1", features = ["derive"] }
serde_json = "1"
thiserror = "1"

[dev-dependencies]
regex = "1"
