[package]
name = "teapot_fortune"
version = "0.1.0"
edition = "2021"
publish = false

[dependencies]
actix-web = "4"
dotenv = "0.15"
rand = "0.8"
sqlx = { version = "0.8", default-features = false, features = ["runtime-tokio", "sqlite"] }
