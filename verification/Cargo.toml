[package]
name = "chronicle"
version = "0.1.0"
edition = "2021"
publish = false

[dependencies]
hyper = { version = "0.14", features = ["server", "http1", "tcp", "runtime"] }
time = { version = "0.3", features = ["parsing", "formatting"] }
url = "2"
openidconnect = "4"
reqwest = { version = "0.12", default-features = false }
sqlx = { version = "0.8", default-features = false, features = ["runtime-tokio", "postgres", "time", "migrate"] }
tokio = { version = "1", features = ["full"] }
askama = "0.12"
serde = { version = "1", features = ["derive"] }
serde_json = "1"
csv = "1"
dotenvy = "0.15"
arc-swap = "1"
