[package]
name = "store_service"
version = "0.1.0"
edition = "2021"
publish = false

[dependencies]
uuid = { version = "=1.29.1", features = ["v4", "serde"] }
chrono = { version = "=0.4.45", features = ["serde"] }
scylla = "=0.10.2"
actix-web = { version = "=4.18.1", default-features = false, features = ["macros"] }
tokio = { version = "=1.54.1", features = ["macros", "rt-multi-thread"] }
futures = "=0.3.34"
serde = { version = "=1.0.229", features = ["derive"] }
