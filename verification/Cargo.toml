[package]
name = "lambda_runtime_core"
version = "0.1.0"
edition = "2021"
publish = false

[dependencies]
http = "=1.5.0"
bytes = "=1.12.1"
hyper = { version = "=1.12.0", features = ["client", "http1"] }
hyper-util = { version = "=0.1.21", features = ["client", "client-legacy", "http1", "tokio"] }
http-body-util = "=0.1.5"
futures = "=0.3.34"
futures-util = "=0.3.34"
tower = { version = "=0.5.3", features = ["util"] }
tokio = { version = "=1.54.1", features = ["rt", "rt-multi-thread", "macros", "time", "sync"] }
tokio-stream = "=0.1.19"
async-stream = "=0.3.6"
pin-project = "=1.1.13"
serde = { version = "=1.0.229", features = ["derive"] }
serde_json = "=1.0.154"
tracing = "=0.1.44"
opentelemetry-semantic-conventions = { version = "=0.33.1", features = ["semconv_experimental"] }
bon = "=3.10.3"

[dev-dependencies]
maplit = "=1.0.2"
