[package]
name = "standardnotes-rs"
version = "0.1.0"
edition = "2021"
publish = false

[dependencies]
jsonwebtoken = "7"
serde = { version = "1", features = ["derive"] }
serde_json = { version = "1", features = ["preserve_order"] }
rocket = { version = "0.5", features = ["json"] }
rocket_sync_db_pools = { version = "0.1", features = ["diesel_postgres_pool"] }
diesel = { version = "2", features = ["postgres"] }
diesel_migrations = "2"
dotenv = "0.15"
log = "0.4"
