[package]
name = "pg_analytics"
version = "0.1.0"
edition = "2021"
publish = false

[dependencies]
serde_json = "*"
sqlparser = "*"
uuid = "*"
