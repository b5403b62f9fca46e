[package]
name = "warp_server"
version = "0.1.0"
edition = "2021"
publish = false

[dependencies]
actix-web = { version = "=4.18.1", default-features = false, features = ["macros", "cookies", "experimental-introspection"] }
actix-multipart = { version = "=0.7.2", default-features = false, features = ["derive"] }
base64 = "=0.22.1"
chrono = { version = "=0.4.45", default-features = false, features = ["clock", "std", "serde"] }
color-eyre = "=0.6.5"
dotenvy = "=0.15.7"
flate2 = "=1.1.10"
futures-util = "=0.3.34"
hex = "=0.4.3"
rand = "=0.8.8"
reqwest = { version = "=0.12.28", default-features = false, features = ["json"] }
serde = { version = "=1.0.229", features = ["derive"] }
serde_json = "=1.0.154"
serde_qs = "=0.13.0"
sha2 = "=0.10.9"
sqlx = { version = "=0.8.6", default-features = false, features = ["runtime-tokio", "sqlite", "chrono", "derive"] }
tokio = { version = "=1.54.1", features = ["macros", "rt-multi-thread"] }
tracing = "=0.1.44"
tracing-subscriber = { version = "=0.3.23", features = ["env-filter"] }
url = "=2.5.8"
uuid = { version = "=1.29.0", features = ["v4", "serde"] }
validator = "=0.20.0"
