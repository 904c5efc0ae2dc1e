[package]
name = "scheduled_cronjob"
version = "0.1.0"
edition = "2021"
publish = false

[dependencies]
chrono = "*"
k8s-openapi = { version = "*", features = ["latest"] }
kube = { version = "*", default-features = false, features = ["client"] }
serde = { version = "*", features = ["derive"] }
serde_json = "*"
tracing = "*"
