[package]
name = "sqlx_query_as_builder"
version = "0.1.0"
edition = "2021"
publish = false

[dependencies]
proc-macro2 = "=1.0.107"
quote = "=1.0.47"
syn = { version = "=2.0.119", features = ["full"] }
sqlx-macros-core = { version = "=0.8.6", default-features = false, features = ["macros", "sqlite"] }
