[package]
name = "efa"
version = "0.1.0"
edition = "2021"
publish = false

[dependencies]
serde_json = "*"
quick-xml = "*"
html-escape = "*"
serde_urlencoded = "*"
reqwest = { version = "*", default-features = false }
