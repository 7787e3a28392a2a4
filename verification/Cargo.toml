[package]
name = "tenor"
version = "0.1.0"
edition = "2021"
publish = false

[dependencies]
serde = { version = "*", features = ["derive"] }
serde_json = "*"
reqwest = { version = "*", default-features = false }
thiserror = "*"
tracing = "*"
codes-iso-639 = "*"
codes-iso-3166 = "*"
iso-639 = "*"
