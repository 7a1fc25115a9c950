[package]
name = "broodkruimel"
version = "0.1.0"
edition = "2021"
publish = false

[dependencies]
actix-web = "4"
chrono = "0.4"
serde = { version = "1", features = ["derive"] }
sqlite = "*"
uuid = { version = "1", features = ["v4"] }
