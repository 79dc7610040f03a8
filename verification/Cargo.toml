[package]
name = "tasks_authenticated"
version = "0.1.0"
edition = "2021"
publish = false

[dependencies]
argon2 = { version = "=0.5.3", features = ["std"] }
axum = { version = "=0.8.9", features = ["macros"] }
axum-extra = { version = "=0.10.3", features = ["typed-header", "cookie"] }
chrono = { version = "=0.4.45", features = ["serde"] }
clap = { version = "=4.6.7", features = ["derive"] }
color-eyre = "=0.6.5"
config = { version = "=0.15.27", default-features = false, features = ["yaml"] }
dotenv = "=0.15.0"
futures-util = "=0.3.34"
jsonwebtoken = "=9.3.1"
serde = { version = "=1.0.229", features = ["derive"] }
serde_json = "=1.0.154"
sqlx = { version = "=0.8.6", default-features = false, features = ["runtime-tokio", "postgres", "chrono", "uuid", "migrate", "derive"] }
thiserror = "=2.0.21"
time = "=0.3.55"
tokio = { version = "=1.54.1", features = ["rt-multi-thread", "macros", "net"] }
tower = "=0.5.3"
tower-http = { version = "=0.6.11", features = ["trace"] }
tracing = "=0.1.44"
tracing-error = "=0.2.1"
tracing-subscriber = { version = "=0.3.23", features = ["env-filter", "json"] }
utoipa = { version = "=5.5.0", features = ["axum_extras"] }
utoipa-axum = "=0.2.0"
utoipa-rapidoc = { version = "=6.0.0", features = ["axum"] }
utoipa-redoc = { version = "=6.0.0", features = ["axum"] }
utoipa-scalar = { version = "=0.3.0", features = ["axum"] }
utoipa-swagger-ui = { version = "=9.0.2", features = ["axum", "vendored"] }
uuid = { version = "=1.29.0", features = ["v4", "serde"] }
validator = "=0.20.0"

[dev-dependencies]
rsa = { version = "=0.9.10", features = ["getrandom"] }
