[package]
name = "rscms"
version = "0.1.0"
edition = "2021"
publish = false

[dependencies]
actix-web = "4"
bcrypt = "0.15"
chrono = "0.4"
dotenv = "0.15"
futures = "0.3"
jsonwebtoken = "9"
mongodb = "2"
serde = { version = "1", features = ["derive"] }
serde_json = { version = "1", features = ["preserve_order"] }
