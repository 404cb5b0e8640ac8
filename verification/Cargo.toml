[package]
name = "scheme_redirect"
version = "0.1.0"
edition = "2021"
publish = false

[dependencies]
actix-web = { version = "4", default-features = false }
actix-utils = "3"
futures-core = "0.3"
serde = { version = "1", features = ["derive"] }
