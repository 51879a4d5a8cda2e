[package]
name = "ameca"
version = "0.1.0"
edition = "2021"
publish = false

[dependencies]
chrono = { version = "=0.4.45", features = ["serde"] }
log = "=0.4.34"
serde = { version = "=1.0.229", features = ["derive"] }
surrealdb = { version = "=1.4.2", default-features = false, features = ["kv-mem", "protocol-ws"] }
tokio = { version = "=1.54.1", features = ["macros", "rt-multi-thread"] }
tracing = "=0.1.44"
