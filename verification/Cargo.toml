[package]
name = "configme"
version = "0.1.0"
edition = "2021"
publish = false

[dependencies]
shellexpand = "3"
fancy-log = "*"
sqlx = { version = "0.8", default-features = false, features = ["sqlite", "runtime-tokio"] }
