[package]
name = "deploy_core"
version = "0.1.0"
edition = "2021"
publish = false

[dependencies]
base64 = "0.13"
chrono = "0.4"
function_name = "0.2"
git2 = "0.14"
retry = "1"
rusoto_core = { version = "0.47", default-features = false, features = ["rustls"] }
rusoto_credential = "0.47"
rusoto_ecr = { version = "0.47", default-features = false, features = ["rustls"] }
rusoto_sts = { version = "0.47", default-features = false, features = ["rustls"] }
serde = { version = "1", features = ["derive"] }
serde_json = "1"
sysinfo = "0.16"
tera = { version = "1", default-features = false }
tokio = { version = "1", features = ["rt"] }
tracing = "0.1"
url = "2"
