[package]
name = "libre_learning"
version = "0.1.0"
edition = "2021"
publish = false

[dependencies]
any_ascii = "*"
edit-distance = "*"
http-auth-basic = "*"
qstring = "*"
serde = { version = "*", features = ["derive"] }
serde_json = "*"
ehttp = "*"
