[package]
name = "chess_engine"
version = "0.1.0"
edition = "2021"
publish = false

[dependencies]
rand = "0.8"
serde = { version = "1", features = ["derive"] }
tokio = { version = "1", features = ["macros", "rt-multi-thread"] }
reqwest = { version = "0.11", default-features = false, features = ["json"] }
