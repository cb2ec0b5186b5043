[package]
name = "booru_resources"
version = "0.1.0"
edition = "2021"
publish = false

[dependencies]
axum = { version = "=0.8.9", features = ["multipart"] }
diesel = { version = "=2.3.14", features = ["postgres"] }
hayro = "=0.7.1"
hex = "=0.4.3"
image = { version = "=0.25.10", default-features = false }
mime = "=0.3.17"
num-traits = "=0.2.19"
serde = { version = "=1.0.229", features = ["derive"] }
serde_with = "=3.24.0"
utoipa = "=6.0.0"
vello_cpu = "*"
