[package]
name = "trivia_arena"
version = "0.1.0"
edition = "2021"
publish = false

[dependencies]
bcrypt = "=0.15.1"
uuid = { version = "=1.29.0", features = ["v4"] }
serde = { version = "=1.0.229", features = ["derive"] }
tokio = { version = "=1.54.1", features = ["full"] }
tokio-stream = "=0.1.19"
tonic = "=0.11.0"
prost = "=0.12.6"
dotenvy = "=0.15.7"
redis = { version = "=0.24.1", features = ["tokio-comp"] }
sqlx = { version = "=0.7.4", default-features = false, features = ["runtime-tokio", "postgres"] }
mongodb = "=2.8.2"
