[package]
name = "blog001"
version = "0.1.0"
edition = "2021"
publish = false

[dependencies]
axum = "0.8"
dotenvy = "0.15"
leptos = { version = "0.7", features = ["ssr"] }
serde = { version = "1", features = ["derive"] }
sqlx = { version = "0.8", default-features = false, features = ["sqlite", "runtime-tokio", "migrate", "macros"] }
thiserror = "2"
tokio = { version = "1", features = ["macros", "rt-multi-thread", "net"] }
tracing = "0.1"
tracing-subscriber = { version = "0.3", features = ["env-filter", "fmt"] }
uuid = { version = "1", features = ["v4"] }
