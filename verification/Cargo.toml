[package]
name = "juniper_actix"
version = "0.1.0"
edition = "2021"
publish = false

[dependencies]
actix = "0.10"
actix-web = { version = "3", default-features = false }
actix-web-actors = "3"
futures = "0.3"
juniper = { version = "0.15", default-features = false }
serde = { version = "1", features = ["derive"] }
serde_derive = "1"
serde_json = "1"
tokio = { version = "0.2", features = ["time"] }
