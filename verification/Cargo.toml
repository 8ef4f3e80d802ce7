[package]
name = "label_print"
version = "0.1.0"
edition = "2021"
publish = false

[dependencies]
actix-web = "4"
env_logger = "0.11"
serde = { version = "1", features = ["derive"] }

[dev-dependencies]
serde_yaml = "0.9"
