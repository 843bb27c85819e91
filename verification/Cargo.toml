[package]
name = "pastebin"
version = "0.1.0"
edition = "2021"
publish = false

[dependencies]
jsonwebtoken = "9"
serde_json = { version = "1", features = ["preserve_order"] }
serde = { version = "1", features = ["derive"] }
chrono = { version = "0.4", default-features = false, features = ["clock", "std"] }
rand = "0.8"
actix-web = { version = "4", default-features = false, features = ["macros"] }
actix-cors = "0.7"
async-graphql = "7"
async-graphql-actix-web = "7"
sqlx = { version = "0.7", default-features = false, features = ["sqlite", "runtime-tokio"] }
futures-util = "0.3"
