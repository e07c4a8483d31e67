[package]
name = "uwais"
version = "0.1.0"
edition = "2021"
publish = false

[dependencies]
reqwest = { version = "0.11", default-features = false, features = ["blocking", "rustls-tls"] }
serde_json = "*"
colored = "*"
zip = "*"
once_cell = "*"
