[package]
name = "session_engine"
version = "0.1.0"
edition = "2021"
publish = false

[dependencies]
actix = "0.13"
actix-cors = "0.7"
actix-web = "4"
actix-web-actors = "4"
bcrypt = "0.15"
chrono = "0.4"
diesel = { version = "2", features = ["postgres", "r2d2", "chrono"] }
dotenv = "0.15"
futures = "0.3"
hex = "0.4"
jsonwebtoken = "9"
rand = "0.8"
regex = "1"
serde = { version = "1", features = ["derive"] }
serde_json = "1"
sha2 = "0.10"
thiserror = "1"
uuid = { version = "1", features = ["v4"] }
