[package]
name = "openapi_diff"
version = "0.1.0"
edition = "2021"
publish = false

[dependencies]
openapiv3 = "*"
indexmap = "*"
serde = { version = "1", features = ["derive"] }
serde_json = "1"
