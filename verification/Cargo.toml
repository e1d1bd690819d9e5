[package]
name = "openebs_upgrade"
version = "0.1.0"
edition = "2021"
publish = false

[dependencies]
anyhow = "*"
base64 = "*"
clap = { version = "*", features = ["derive", "env"] }
flate2 = "*"
k8s-openapi = { version = "*", features = ["latest"] }
kube = "*"
nu-ansi-term = "*"
semver = "*"
serde = { version = "*", features = ["derive"] }
serde_json = "*"
tokio = { version = "*", features = ["macros", "rt-multi-thread", "time"] }
