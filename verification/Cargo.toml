[package]
name = "axum_enum_response"
version = "0.1.0"
edition = "2021"
publish = false

[dependencies]
proc-macro2 = "=1.0.107"
quote = "=1.0.47"
serde_json = "=1.0.154"
syn = "=2.0.119"

[dev-dependencies]
axum = { version = "=0.7.9", default-features = false }
