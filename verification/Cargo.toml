[package]
name = "body_control"
version = "0.1.0"
edition = "2021"
publish = false

[dependencies]
futures = "0.3"
rocket = { version = "0.5", features = ["json"] }
rocket_db_pools = { version = "*", features = ["sqlx_sqlite"] }
sqlx = { version = "0.7", default-features = false, features = ["migrate"] }
uuid = { version = "1", features = ["v4"] }
