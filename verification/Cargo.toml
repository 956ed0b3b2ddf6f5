[package]
name = "ritide"
version = "0.1.0"
edition = "2021"
publish = false

[dependencies]
async-rwlock = "*"
chrono = "=0.4.45"
dotenv = "*"
reqwest = { version = "*", default-features = false }
serde = { version = "*", features = ["derive"] }
serde_json = "*"
tera = { version = "=2.4.0", features = ["glob_fs"] }
tokio = { version = "*", features = ["macros", "rt-multi-thread"] }
tracing = "*"
tracing-subscriber = { version = "*", features = ["env-filter"] }
warp = { version = "=0.4.3", features = ["server"] }
