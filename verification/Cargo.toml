[package]
name = "luna_rs"
version = "0.1.0"
edition = "2021"
publish = false

[dependencies]
html-escape = "*"
url = "*"
config = { version = "*", default-features = false, features = ["toml"] }
thiserror = "*"
async-trait = "*"
tracing = "*"
tokio = { version = "*", features = ["full"] }
reqwest = { version = "0.11", default-features = false, features = ["rustls-tls", "json"] }
serde_json = "*"
