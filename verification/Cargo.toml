[package]
name = "item_api"
version = "0.1.0"
edition = "2021"
publish = false

[dependencies]
actix-web = "4"
mongodb = "2"
serde = { version = "1", features = ["derive"] }
dotenv = "0.15"
futures-util = "0.3"
