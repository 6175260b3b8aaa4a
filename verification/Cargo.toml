[package]
name = "decap_cms_oauth"
version = "0.1.0"
edition = "2021"
publish = false

[dependencies]
axum = "*"
oauth2 = { version = "4", default-features = false }
reqwest = { version = "*", default-features = false }
tokio = { version = "*", features = ["rt-multi-thread", "macros", "net"] }
