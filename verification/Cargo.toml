[package]
name = "box_office"
version = "0.1.0"
edition = "2021"
publish = false

[dependencies]
rand = "0.8"
uuid = { version = "1", features = ["serde", "v4"] }
serde = { version = "1", features = ["derive"] }
chrono = { version = "0.4", features = ["serde"] }
url = { version = "2", features = ["serde"] }
actix-web = { version = "4", default-features = false, features = ["macros"] }
env_logger = { version = "0.11", default-features = false }
