[package]
name = "duckling"
version = "0.1.0"
edition = "2021"
publish = false

[dependencies]
sqlparser = "*"
duckdb = { version = "*", default-features = false }
serde = { version = "*", features = ["derive"] }
sqlformat = "*"
url = "*"
anyhow = "*"
