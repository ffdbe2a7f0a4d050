[package]
name = "request_id"
version = "0.1.0"
edition = "2021"
publish = false

[dependencies]
rand = "*"
actix-web = { version = "*", default-features = false }
actix-service = "*"
futures = "*"
