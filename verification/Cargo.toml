[package]
name = "k8s_connector"
version = "0.1.0"
edition = "2021"
publish = false

[dependencies]
anyhow = "=1.0.104"
async-trait = "=0.1.92"
autoschematic-core = "=0.14.2"
k8s-openapi = { version = "=0.28.0", features = ["latest"] }
regex = "=1.13.1"
ron = "=0.12.2"
serde = { version = "=1.0.229", features = ["derive"] }
serde_yaml = "=0.9.34"
tokio = { version = "=1.54.1", features = ["macros", "rt-multi-thread", "sync"] }
