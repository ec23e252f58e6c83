[package]
name = "web_examples"
version = "0.1.0"
edition = "2021"
publish = false

[dependencies]
http = "=0.1.21"
tera = "=0.11.20"
percent-encoding = "=1.0.1"
finchers = { version = "=0.13.5", features = ["tower-web"] }
finchers-session = { version = "=0.2.0", features = ["redis"] }
finchers-template = "=0.1.1"
finchers-r2d2 = "=0.1.3"
futures = "=0.1.31"
failure = "=0.1.8"
serde = { version = "=1.0.229", features = ["derive"] }
serde_json = "=1.0.154"
log = "=0.4.35"
pretty_env_logger = "=0.5.0"
dotenv = "=0.15.0"
diesel = { version = "=1.4.8", features = ["postgres", "r2d2"] }
r2d2 = "=0.8.10"
slog = "=2.8.2"
sloggers = "=2.2.0"
tokio-threadpool = "=0.1.18"
tower-service = "=0.1.0"
tower-web = "=0.3.7"
