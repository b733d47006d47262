[package]
name = "lambda_sidecar"
version = "0.1.0"
edition = "2021"
publish = false

[dependencies]
jsonwebtoken = { version = "=11.1.0", features = ["rust_crypto"] }
serde_json = "=1.0.151"
hyper = { version = "=0.14.32", features = ["http1", "server", "client", "tcp"] }
tokio = { version = "1", features = ["macros", "rt-multi-thread"] }
log = "*"
env_logger = "*"
