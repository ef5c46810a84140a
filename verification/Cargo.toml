[package]
name = "kwctl"
version = "1.0.0"
edition = "2021"
publish = false

[dependencies]
anyhow = "=1.0.104"
clap = "=3.2.25"
clap_complete = "3.2"
directories = "=4.0.1"
lazy_static = "=1.5.1"
pretty-bytes = "=0.2.2"
prettytable-rs = "=0.10.0"
serde_json = "=1.0.154"
serde_yaml = "=0.9.34"
tokio = { version = "=1.54.1", features = ["full"] }
tracing = "=0.1.44"
tracing-subscriber = { version = "=0.3.23", features = ["env-filter", "fmt"] }
walrus = "*"
