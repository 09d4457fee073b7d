[package]
name = "schema_migration"
version = "0.1.0"
edition = "2021"
publish = false

[dependencies]
rusqlite = "*"
rocket = "*"
rocket_sync_db_pools = { version = "*", features = ["sqlite_pool"] }
color-eyre = "*"
dotenv = "*"
tracing = "*"
tracing-subscriber = { version = "*", features = ["env-filter"] }
