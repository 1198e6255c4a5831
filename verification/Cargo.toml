[package]
name = "backend"
version = "0.1.0"
edition = "2021"
publish = false

[dependencies]
actix-web = { version = "4", default-features = false, features = ["macros"] }
awc = { version = "3", default-features = false, features = ["openssl"] }
diesel = { version = "2", features = ["postgres", "r2d2"] }
dotenv = "0.15"
dotenvy = "0.15"
qstring = "0.7"
serde = { version = "1", features = ["derive"] }
serde_json = "1"
