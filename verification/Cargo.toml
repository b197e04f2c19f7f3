[package]
name = "crm_adapters"
version = "0.1.0"
edition = "2021"
publish = false

[dependencies]
prost = "0.13"
sqlx = { version = "0.8", default-features = false, features = ["postgres", "runtime-tokio"] }
