[package]
name = "my_drive"
version = "0.1.0"
edition = "2021"
publish = false

[dependencies]
bson = "2"
dotenv = "0.15"
mongodb = "2"
serde = { version = "1", features = ["derive"] }
serde_repr = "0.1"
tokio = { version = "1", features = ["macros", "rt-multi-thread"] }
