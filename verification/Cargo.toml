[package]
name = "vector_db_proxy"
version = "0.1.0"
edition = "2021"
publish = false

[dependencies]
serde_json = "*"
uuid = { version = "*", features = ["v5"] }
tokio = { version = "*", features = ["rt-multi-thread", "macros", "sync"] }
crossbeam = "*"
log = "*"
anyhow = "*"
