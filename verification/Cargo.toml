[package]
name = "cfn_resource_provider"
version = "0.1.0"
edition = "2021"
publish = false

[dependencies]
serde = "1"
serde_json = "1"
failure = "0.1"
reqwest = { version = "0.11", default-features = false, features = ["blocking"] }
