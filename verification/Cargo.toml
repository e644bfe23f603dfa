[package]
name = "todo_backend"
version = "0.1.0"
edition = "2021"
publish = false

[dependencies]
chrono = "=0.4.45"
libxid = "=0.1.5"
prost-types = "=0.14.4"
serde = "=1.0.229"
serde_derive = "=1.0.229"
slog = "=2.8.2"
slog-async = "=2.8.0"
slog-bunyan = "=2.5.0"
config = "=0.15.27"
tokio = { version = "=1.53.2", features = ["macros", "rt-multi-thread"] }
warp = "=0.3.7"
sqlx = { version = "=0.8.6", features = ["runtime-tokio", "postgres", "migrate", "chrono"] }
async-trait = "=0.1.92"
