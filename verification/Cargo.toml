[package]
name = "interpreter"
version = "0.1.0"
edition = "2021"
publish = false

[dependencies]
nom = "*"
nom-unicode = "*"
serde = { version = "1", features = ["derive"] }
tokio = { version = "1", features = ["io-std", "io-util", "macros", "rt", "time"] }
