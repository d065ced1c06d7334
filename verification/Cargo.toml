[package]
name = "birthday_resolver"
version = "0.1.0"
edition = "2021"
publish = false

[dependencies]
axum = "*"
chrono = "*"
chrono-tz = "*"
serde = { version = "*", features = ["derive"] }
tokio = { version = "*", features = ["full"] }
toml = "*"
tower = { version = "*", features = ["util"] }
tower-http = { version = "*", features = ["fs"] }
