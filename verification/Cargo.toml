[package]
name = "mdap"
version = "0.1.0"
edition = "2021"
publish = false

[dependencies]
axum = "=0.8.9"
clap = { version = "=4.6.7", features = ["derive", "env"] }
diqwest = "=3.2.0"
futures = "=0.3.34"
reqwest = { version = "=0.13.5", default-features = false, features = ["rustls", "stream"] }
tokio = { version = "=1.53.2", features = ["macros", "net", "rt-multi-thread", "signal"] }
tower-http = { version = "=0.6.11", features = ["trace"] }
tracing = "=0.1.44"
tracing-appender = "=0.2.5"
tracing-subscriber = { version = "=0.3.23", features = ["env-filter", "fmt"] }
