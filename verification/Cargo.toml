[package]
name = "todo_app"
version = "0.1.0"
edition = "2021"
publish = false

[dependencies]
jsonwebtoken = "9"
serde = { version = "1", features = ["derive"] }
serde_json = "1"
axum = "*"
tokio = { version = "1", features = ["macros", "rt-multi-thread", "net"] }
reqwest = { version = "*", default-features = false, features = ["json", "rustls-tls"] }
sqlx = { version = "*", features = ["runtime-tokio-rustls", "postgres", "time", "uuid"] }
time = { version = "*", features = ["serde", "formatting", "parsing", "serde-well-known"] }
uuid = { version = "1", features = ["serde", "v4"] }
dotenvy = "*"
tower = "*"
tower-http = { version = "*", features = ["cors"] }
