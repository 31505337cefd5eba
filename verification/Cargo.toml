[package]
name = "bbdata"
version = "0.1.0"
edition = "2021"
publish = false

[dependencies]
battlebit-api = { version = "=0.2.2", features = ["async"] }
rocket = "=0.5.1"
serde = { version = "=1.0.229", features = ["derive"] }
serde_json = "=1.0.151"
thiserror = "=1.0.69"
utoipa = "=6.0.0"
utoipa-rapidoc = { version = "=7.0.0", features = ["rocket"] }
utoipa-redoc = { version = "=7.0.0", features = ["rocket"] }
utoipa-swagger-ui = { version = "=10.0.1", features = ["rocket", "vendored"] }
