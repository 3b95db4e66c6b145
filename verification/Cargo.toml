[package]
name = "ad_marketplace"
version = "0.1.0"
edition = "2021"
publish = false

[dependencies]
actix = "0.13"
actix-cors = "0.7"
actix-multipart = "0.6"
actix-web = { version = "4", default-features = false, features = ["macros"] }
actix-web-httpauth = "0.8"
argonautica = "0.2"
diesel = { version = "2", features = ["postgres", "r2d2", "uuid"] }
diesel_migrations = "2"
dotenv = "0.15"
futures-util = "0.3"
hmac = "0.12"
jwt = "0.16"
percent-encoding = "2"
r2d2 = "0.8"
serde = { version = "1", features = ["derive"] }
sha2 = "0.10"
slog = "2"
slog-async = "2"
slog-envlogger = "2"
slog-term = "2"
tokio = { version = "1", features = ["fs"] }
uuid = { version = "1", features = ["v4", "serde"] }
