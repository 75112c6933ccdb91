[package]
name = "agent_tasks"
version = "0.1.0"
edition = "2021"
publish = false

[dependencies]
axum = "0.7"
futures = "0.3"
google-cloud-pubsub = "0.25"
k8s-openapi = { version = "0.22", features = ["latest"] }
kube = { version = "0.93", default-features = false, features = ["client", "rustls-tls"] }
pulsar = { version = "6.3", default-features = false, features = ["tokio-runtime"] }
serde_json = "1"
tokio = { version = "1", features = ["macros", "net", "rt-multi-thread", "sync"] }
tracing = "0.1"
tracing-subscriber = "0.3"
uuid = { version = "1", features = ["v4"] }
