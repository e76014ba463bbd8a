[package]
name = "porter"
version = "0.1.0"
edition = "2021"
publish = false

[dependencies]
async-graphql = { version = "7", default-features = false, features = ["chrono"] }
chrono = "0.4"
sea-orm = { version = "1.1", default-features = false, features = ["macros", "runtime-tokio-rustls", "sqlx-sqlite", "with-chrono"] }
sqlx = { version = "0.8", default-features = false, features = ["migrate", "runtime-tokio-rustls", "sqlite"] }
tokio = { version = "1", features = ["full"] }
warp = { version = "0.3", default-features = false }
