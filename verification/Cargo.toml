[package]
name = "room_invites"
version = "0.1.0"
edition = "2021"
publish = false

[dependencies]
regex = "1"
poise = "0.6"
redis = { version = "*", features = ["tokio-comp"] }
sqlx = { version = "*", default-features = false, features = ["postgres", "runtime-tokio"] }
tokio = { version = "1", features = ["macros", "rt-multi-thread"] }
