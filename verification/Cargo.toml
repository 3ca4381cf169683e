[package]
name = "zero2prod"
version = "0.1.0"
edition = "2021"
publish = false

[dependencies]
actix-session = { version = "0.10", features = ["redis-session"] }
actix-web = "4"
actix-web-flash-messages = { version = "0.5", features = ["cookies"] }
anyhow = "1"
argon2 = { version = "=0.5.3", features = ["std"] }
base64 = "=0.22.1"
chrono = { version = "0.4", default-features = false, features = ["clock"] }
config = { version = "0.14", default-features = false, features = ["yaml"] }
const-hex = "=1.19.3"
rand = { version = "=0.8.8", features = ["std_rng"] }
reqwest = { version = "0.12", default-features = false, features = ["json"] }
secrecy = { version = "=0.8.0", features = ["serde"] }
serde = { version = "1", features = ["derive"] }
serde-aux = "4"
sha2 = "=0.10.9"
sqlx = { version = "0.8", default-features = false, features = ["runtime-tokio", "postgres", "uuid", "chrono"] }
thiserror = "1"
tokio = { version = "1", features = ["macros", "rt-multi-thread"] }
tracing = "0.1"
tracing-actix-web = "0.7"
tracing-bunyan-formatter = "0.3"
tracing-log = "0.2"
tracing-subscriber = { version = "0.3", features = ["registry", "env-filter"] }
unicode-segmentation = "=1.13.3"
uuid = { version = "=1.29.0", features = ["v4"] }
validator = "=0.18.1"
