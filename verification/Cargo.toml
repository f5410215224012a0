[package]
name = "fermata"
version = "0.1.0"
edition = "2021"
publish = false

[dependencies]
owo-colors = "4"
serde = { version = "1", features = ["derive"] }
serde_json = "1"
thiserror = "2"
