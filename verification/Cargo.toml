[package]
name = "crypto_news"
version = "0.1.0"
edition = "2021"
publish = false

[dependencies]
chrono = "*"
reqwest = { version = "*", default-features = false }
tokio = { version = "*", features = ["rt-multi-thread", "macros", "time"] }
actix-web = { version = "*", default-features = false }
actix-files = "*"
tera = { version = "*", default-features = false }
serde = { version = "*", features = ["derive"] }
thiserror = "*"
parking_lot = "*"
