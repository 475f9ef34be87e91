[package]
name = "dad_joke"
version = "0.1.0"
edition = "2021"
publish = false

[dependencies]
dioxus = "*"
reqwest = { version = "*", default-features = false, features = ["json"] }
serde = { version = "*", features = ["derive"] }
