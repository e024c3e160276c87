[package]
name = "torqle"
version = "0.1.0"
edition = "2021"
publish = false

[dependencies]
anyhow = "=1.0.104"
async-trait = "=0.1.92"
chrono = "=0.4.45"
hex = "=0.4.3"
keytar = "*"
mysql_async = { version = "=0.34.2", default-features = false, features = ["minimal"] }
rand = "=0.8.8"
russh = "=0.45.0"
russh-keys = "=0.45.0"
serde = { version = "=1.0.229", features = ["derive"] }
serde_json = "=1.0.154"
sqlx = { version = "*", default-features = false, features = ["sqlite", "runtime-tokio"] }
tokio = { version = "=1.54.1", features = ["full"] }
users = "=0.11.0"
uuid = { version = "=1.29.0", features = ["v4"] }
