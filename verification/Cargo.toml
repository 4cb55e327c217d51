[package]
name = "priority_class_policy"
version = "0.1.0"
edition = "2021"
publish = false

[dependencies]
kubewarden-policy-sdk = "*"
k8s-openapi = { version = "*", default-features = false, features = ["latest"] }
serde = { version = "*", features = ["derive"] }
slog = "*"
