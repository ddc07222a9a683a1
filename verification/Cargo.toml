[package]
name = "mis1yakudo"
version = "0.1.0"
edition = "2021"
publish = false

[dependencies]
anyhow = "1"
async-trait = "0.1"
chrono = "0.4"
futures = "0.3"
log = "0.4"
mime = "0.3"
misskey = "0.2"
pretty_env_logger = "0.4"
reqwest = { version = "0.11", default-features = false, features = ["rustls-tls"] }
sea-orm = { version = "0.12", default-features = false, features = ["sqlx-sqlite", "runtime-tokio-rustls", "macros", "with-chrono"] }
sea-orm-migration = { version = "0.12", default-features = false, features = ["sqlx-sqlite", "runtime-tokio-rustls"] }
tokio = { version = "1", features = ["rt-multi-thread", "macros", "time", "sync"] }
