[package]
name = "auth_service"
version = "0.1.0"
edition = "2021"
publish = false

[dependencies]
actix-cors = "0.7"
actix-files = "0.6"
actix-rt = "2"
actix-session = { version = "0.10", features = ["redis-session"] }
actix-web = "4"
argonautica = "0.2"
chrono = { version = "=0.4.45", features = ["serde"] }
derive_more = "0.99"
diesel = { version = "=1.4.8", features = ["postgres", "uuidv07", "r2d2", "chrono"] }
dotenv = "0.15"
env_logger = "0.7"
lettre = "=0.11.23"
native-tls = "0.2"
r2d2 = "0.8"
serde = { version = "1.0", features = ["derive"] }
serde_json = "1.0"
uuid = { version = "=0.8.2", features = ["serde", "v4"] }
yarte = "=0.15.7"
