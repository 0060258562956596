[package]
name = "qa_api"
version = "0.1.0"
edition = "2021"
publish = false

[dependencies]
rust-argon2 = "=3.0.0"
paseto = "=2.0.2+1.0.3"
rand = "=0.10.3"
chrono = "=0.4.45"
serde = { version = "=1.0.229", features = ["derive"] }
serde_json = "=1.0.151"
dotenv = "=0.15.0"
tokio = { version = "=1.53.2", features = ["macros", "rt-multi-thread", "sync"] }
warp = { version = "=0.4.3", features = ["server"] }
sqlx = { version = "=0.9.0", default-features = false, features = ["runtime-tokio", "postgres"] }
