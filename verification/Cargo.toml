[package]
name = "havoc"
version = "0.1.0"
edition = "2021"
publish = false

[dependencies]
anyhow = "=1.0.104"
async-trait = "0.1"
atty = "0.2"
axum = "0.6"
chrono = { version = "=0.4.45", default-features = false, features = ["clock", "std"] }
chrono-tz = "=0.10.4"
clap = "4"
futures = "0.3"
http = "=0.2.12"
isahc = "=1.8.3"
regex = "=1.13.1"
serde = { version = "=1.0.229", features = ["derive"] }
serde_json = "=1.0.154"
sqlx = { version = "=0.7.4", default-features = false, features = ["runtime-tokio", "postgres"] }
swc_common = "=26.0.0"
swc_ecma_ast = "=29.0.2"
swc_ecma_parser = "=46.1.2"
swc_ecma_visit = "=29.0.0"
termcolor = "1"
thiserror = "=1.0.69"
tokio = { version = "=1.54.1", features = ["macros", "rt-multi-thread", "time"] }
toml = "=0.8.23"
tower-http = { version = "0.4", features = ["trace"] }
tracing = "=0.1.44"
tracing-subscriber = "=0.3.23"
url = "=2.5.8"
