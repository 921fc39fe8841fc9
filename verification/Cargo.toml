[package]
name = "token_auth"
version = "0.1.0"
edition = "2021"
publish = false

[dependencies]
actix-service = "2"
actix-web = { version = "4", default-features = false }
futures = "0.3"
jsonwebtoken = "7"
log = "0.4"
serde = { version = "1", features = ["derive"] }
serde_json = "1"
