[package]
name = "rdap"
version = "0.1.0"
edition = "2021"
publish = false

[dependencies]
iso3166-1 = "*"
serde = { version = "1", features = ["derive"] }
serde_json = "1"
ureq = { version = "2", features = ["json"] }
