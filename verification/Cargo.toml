[package]
name = "sqlxmq"
version = "0.1.0"
edition = "2021"
publish = false

[dependencies]
anymap2 = "0.13"
dotenv = "0.15"
futures = "0.3"
lazy_static = "1"
log = "0.4"
proc-macro2 = "1"
quote = "1"
serde = { version = "1", features = ["derive"] }
serde_json = "1"
sqlx = { version = "0.7", default-features = false, features = ["postgres", "uuid", "runtime-tokio"] }
syn = { version = "1", features = ["full"] }
tokio = { version = "1", features = ["full"] }
uuid = { version = "1", features = ["v4"] }
