[package]
name = "api"
version = "0.1.0"
edition = "2021"
publish = false

[dependencies]
anyhow = "1"
axum = "0.8"
axum-extra = { version = "0.10", features = ["cookie", "typed-header"] }
clap = { version = "4", features = ["derive", "env"] }
data-encoding = "2"
dotenv = "0.15"
headers = "0.4"
jsonwebtoken = "9"
mime = "0.3"
redis = { version = "*", features = ["tokio-comp"] }
reqwest = { version = "0.12", default-features = false, features = ["json"] }
rust-s3 = "*"
serde = { version = "1", features = ["derive"] }
serde_json = "1"
sqlx = { version = "0.8", default-features = false, features = ["postgres", "runtime-tokio", "uuid", "macros"] }
strum = { version = "0.27", features = ["derive"] }
thiserror = "2"
tokio = { version = "1", features = ["full"] }
tower-http = { version = "0.6", features = ["cors", "trace"] }
tracing = "0.1"
tracing-subscriber = { version = "0.3", features = ["env-filter"] }
utoipa = { version = "5", features = ["uuid"] }
utoipa-swagger-ui = { version = "9", features = ["axum", "vendored"] }
uuid = { version = "1", features = ["serde", "v4"] }
zip = { version = "*", default-features = false, features = ["deflate"] }
