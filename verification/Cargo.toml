[package]
name = "chat_auth"
version = "0.1.0"
edition = "2021"
publish = false

[dependencies]
askama = "*"
axum = "*"
bcrypt = "*"
cookie = { version = "*", features = ["private"] }
displaydoc = "*"
serde = { version = "*", features = ["derive"] }
thiserror = "*"
tokio = { version = "*", features = ["rt-multi-thread", "macros", "net"] }
toml = "*"
tower-cookies = { version = "*", features = ["private"] }
