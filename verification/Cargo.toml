[package]
name = "my_app"
version = "0.1.0"
edition = "2021"
publish = false

[dependencies]
actix-web = "3"
diesel = { version = "1.4", features = ["postgres", "r2d2"] }
dotenv = "0.15"
serde = { version = "1", features = ["derive"] }
