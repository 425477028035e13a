[package]
name = "repository"
version = "0.1.0"
edition = "2021"
publish = false

[dependencies]
chrono = { version = "0.4", default-features = false, features = ["std"] }
serde_json = "1"
sqlx = { version = "0.8", default-features = false, features = ["postgres", "uuid", "chrono", "json", "derive"] }
uuid = "1"
