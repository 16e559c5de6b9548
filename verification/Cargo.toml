[package]
name = "kubegraph"
version = "0.1.0"
edition = "2021"
publish = false

[dependencies]
serde_json = "=1.0.151"
serde = { version = "=1.0.229", features = ["derive"] }
axum = "=0.8.9"
tokio = { version = "=1.53.2", features = ["full"] }
tower-http = { version = "=0.7.1", features = ["cors"] }
tracing-subscriber = "=0.3.23"
uuid = { version = "=1.27.0", features = ["v4"] }
kube = "=3.1.0"
k8s-openapi = { version = "=0.27.1", features = ["latest"] }
