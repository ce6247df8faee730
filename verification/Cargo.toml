[package]
name = "rots_authserver"
version = "0.1.0"
edition = "2021"
publish = false

[dependencies]
rand = "0.9"
urlencoding = "2"
anyhow = "1"
axum = "0.8"
axum-extra = { version = "0.10", default-features = false }
clap = { version = "4", features = ["derive", "env"] }
http = "1"
reqwest = { version = "0.12", default-features = false, features = ["json", "rustls-tls"] }
serde = { version = "1", features = ["derive"] }
sqlx = { version = "0.8", default-features = false, features = ["postgres", "runtime-tokio"] }
tokio = { version = "1", features = ["full"] }
tower-http = { version = "0.6", features = ["cors", "normalize-path"] }
tracing = "0.1"
