[package]
name = "file_server"
version = "0.1.0"
edition = "2021"
publish = false

[dependencies]
axum = { version = "*", features = ["multipart"] }
serde = { version = "*", features = ["derive"] }
tokio = { version = "*", features = ["rt-multi-thread", "macros", "net", "fs", "signal"] }
tower-http = { version = "*", features = ["cors"] }
utoipa = "*"
utoipa-swagger-ui = { version = "*", features = ["axum", "vendored"] }
