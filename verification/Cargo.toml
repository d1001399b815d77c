[package]
name = "dick_grower"
version = "0.1.0"
edition = "2021"
publish = false

[dependencies]
rand = "*"
chrono = "0.4"
serenity = { version = "0.12", default-features = false, features = ["builder", "cache", "chrono", "client", "gateway", "http", "model", "utils", "rustls_backend"] }
sqlx = { version = "0.8", default-features = false, features = ["sqlite", "runtime-tokio"] }
tokio = { version = "1", features = ["macros", "rt-multi-thread", "sync", "time"] }
log = "0.4"
fern = { version = "0.7", features = ["colored"] }
dotenv = "0.15"
