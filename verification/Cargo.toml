[package]
name = "cj_subscriptions"
version = "0.1.0"
edition = "2021"
publish = false

[dependencies]
actix-web = { version = "=4.18.1", default-features = false, features = ["macros"] }
serde = { version = "=1.0.229", features = ["derive"] }
serde_json = "=1.0.154"
sqlx = { version = "=0.8.6", default-features = false, features = ["derive", "postgres", "runtime-tokio", "time", "uuid", "json"] }
time = { version = "=0.3.55", features = ["serde"] }
uuid = { version = "=1.29.0", features = ["v4"] }
