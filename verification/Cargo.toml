[package]
name = "image_service"
version = "0.1.0"
edition = "2021"
publish = false

[dependencies]
anyhow = "=1.0.104"
argon2 = { version = "=0.5.3", features = ["std"] }
aws-config = "=1.12.0"
aws-sdk-s3 = "=1.152.0"
# Held back for aws-config 1.12, which does not compile against aws-types 1.7.
aws-types = "=1.6.0"
chrono = { version = "=0.4.45", features = ["serde"] }
serde = { version = "=1.0.229", features = ["derive"] }
sqlx = { version = "=0.8.6", features = ["runtime-tokio", "postgres", "uuid", "chrono"] }
tokio = { version = "=1.54.1", features = ["macros", "rt-multi-thread"] }
tower-sessions = "=0.14.0"
tower-sessions-redis-store = "=0.16.0"
uuid = { version = "=1.29.0", features = ["v4", "serde"] }
