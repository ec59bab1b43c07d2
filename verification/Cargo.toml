[package]
name = "fabrix"
version = "0.1.0"
edition = "2021"
publish = false

[dependencies]
polars = "=0.14.8"
sea-query = { version = "=0.15.0", features = ["with-uuid"] }
sqlx = { version = "=0.5.13", default-features = false, features = ["runtime-tokio-rustls", "mysql", "postgres", "sqlite"] }
thiserror = "=1.0.69"
uuid = "=0.8.2"
