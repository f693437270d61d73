[package]
name = "filter_rss_feed"
version = "0.1.0"
edition = "2021"
publish = false

[dependencies]
aws_lambda_events = { version = "=1.2.1", default-features = false, features = ["apigw"] }
bytes = "=1.12.1"
console_error_panic_hook = "*"
env_logger = "=0.11.11"
headers = "=0.4.2"
headers-accept = "=0.3.0"
http = "=1.5.0"
http-body-util = "=0.1.5"
lambda-extension = "*"
lambda_runtime = "=1.5.0"
log = "=0.4.34"
opentelemetry = "=0.33.1"
opentelemetry-http = "=0.33.1"
opentelemetry-otlp = "*"
opentelemetry_sdk = "=0.33.1"
regex = "=1.13.1"
reqwest = { version = "=0.12.28", default-features = false, features = ["rustls-tls", "brotli", "deflate", "gzip", "zstd"] }
rss = "=2.1.2"
structopt = "=0.3.26"
thiserror = "=2.0.21"
tokio = { version = "=1.54.1", features = ["macros", "rt-multi-thread", "sync"] }
tower = "=0.5.3"
tracing = "=0.1.44"
tracing-opentelemetry = "=0.34.0"
tracing-subscriber = { version = "=0.3.23", features = ["env-filter", "json"] }
url = "=2.5.8"
urlencoding = "=2.1.3"
uuid = { version = "=1.29.0", features = ["v4"] }
web-time = "=1.1.0"
worker = { version = "=0.8.7", features = ["http"] }
