[package]
name = "accuweather"
version = "0.1.0"
edition = "2021"
publish = false

[dependencies]
serde_json = "*"
reqwest = { version = "*", default-features = false, features = ["blocking"] }

[dev-dependencies]
mockito = "*"
