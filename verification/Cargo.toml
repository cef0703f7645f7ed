[package]
name = "diesel_dtrace"
version = "0.1.0"
edition = "2021"

[dependencies]
diesel = { version = "=2.3.14", features = ["sqlite", "r2d2", "i-implement-a-third-party-backend-and-opt-into-breaking-changes"] }
libsqlite3-sys = { version = "=0.38.2", features = ["bundled"] }
serde = "=1.0.229"
usdt = "=0.6.0"
uuid = { version = "=1.27.0", features = ["v4", "serde"] }
