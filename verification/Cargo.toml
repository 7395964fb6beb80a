[package]
name = "mssql_adapter"
version = "0.1.0"
edition = "2021"
publish = false

[dependencies]
anyhow = "1"
async-trait = "0.1"
futures = "0.3"
itertools = "0.10"
sqlx = { version = "0.6", default-features = false, features = ["mssql", "runtime-tokio-rustls"] }
