[package]
name = "proplate"
version = "0.1.0"
edition = "2021"
publish = false

[dependencies]
clap = "4"
inquire = "*"
owo-colors = "*"
serde = { version = "1", features = ["derive"] }
serde_json = "1"
uuid = { version = "1", features = ["v4"] }

[dev-dependencies]
regex = "1"
