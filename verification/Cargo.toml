[package]
name = "axum_sqlx_tx"
version = "0.1.0"
edition = "2021"
publish = false

[dependencies]
axum-core = "=0.5.6"
bytes = "=1.12.1"
futures-core = "=0.3.34"
http = "=1.5.0"
http-body = "=1.1.0"
parking_lot = { version = "=0.12.5", features = ["arc_lock", "send_guard"] }
sqlx = { version = "=0.9.0", default-features = false }
tower-layer = "=0.3.3"
tower-service = "=0.3.3"
