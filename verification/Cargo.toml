[package]
name = "voice_presence"
version = "0.1.0"
edition = "2021"
publish = false

[dependencies]
ahash = "0.8"
dashmap = "5"
num_cpus = "1"
poise = "0.6"
serenity = { version = "0.12", default-features = false, features = ["cache", "client", "gateway", "model", "rustls_backend", "voice"] }
songbird = { version = "0.4", default-features = false, features = ["gateway", "serenity", "rustls"] }
sqlx = { version = "0.7", default-features = false, features = ["postgres", "runtime-tokio"] }
tokio = { version = "1", features = ["macros", "rt-multi-thread", "sync", "time"] }
