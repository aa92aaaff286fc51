[package]
name = "spotify_rooms"
version = "0.1.0"
edition = "2021"
publish = false

[dependencies]
actix-cors = "0.5"
actix-files = "0.5"
actix-rt = "1"
actix-web = "3"
diesel = { version = "1.4", features = ["postgres", "r2d2"] }
dotenv = "0.15"
env_logger = "0.8"
futures = "0.3"
r2d2 = "0.8"
rand = "0.8"
serde = { version = "1", features = ["derive"] }
serde_json = "1"
serde_urlencoded = "0.7"
time = "0.3"
