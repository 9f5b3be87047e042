[package]
name = "treasury"
version = "0.1.0"
edition = "2021"
publish = false

[dependencies]
casbin = "2"
base64 = "0.22"
sha2 = "0.10"
urlencoding = "2"
zerocopy = "0.8"
jsonwebtoken = "9"
sqlx = { version = "0.8", default-features = false, features = ["runtime-tokio", "postgres", "uuid", "chrono"] }
axum = "0.8"
axum-extra = { version = "0.10", features = ["cookie"] }
tokio = { version = "1", features = ["full"] }
serde = { version = "1", features = ["derive"] }
serde_json = "1"
chrono = { version = "0.4", features = ["serde"] }
uuid = { version = "1", features = ["serde"] }
http = "1"
tower = "0.5"
tower-http = { version = "0.6", features = ["cors", "compression-gzip", "timeout", "trace", "auth"] }
tracing = "0.1"
tracing-subscriber = { version = "0.3", features = ["env-filter"] }
reqwest = { version = "0.12", default-features = false, features = ["json", "rustls-tls"] }
oauth2 = "5"
time = "0.3"
thiserror = "2"
futures-util = "0.3"
