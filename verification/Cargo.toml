[package]
name = "url_shortener"
version = "0.1.0"
edition = "2021"
publish = false

[dependencies]
rand = "*"
rand_distr = "*"
url = "*"
actix-web = "*"
serde = { version = "*", features = ["derive"] }
serde_json = "*"
sqlx = { version = "*", features = ["sqlite", "runtime-tokio"] }
thiserror = "*"
