[package]
name = "tero"
version = "0.1.0"
edition = "2021"
publish = false

[dependencies]
dashmap = "6"
rand = "0.9"
rand_chacha = "0.9"
tokio = { version = "1", features = ["rt-multi-thread", "macros", "time", "sync"] }
sqlx = { version = "0.8", default-features = false, features = ["postgres", "runtime-tokio"] }
thiserror = "2"
tracing = "0.1"
serde = { version = "1", features = ["derive"] }
serde_json = "1"
