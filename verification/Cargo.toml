[package]
name = "command_schema"
version = "0.1.0"
edition = "2021"
publish = false

[dependencies]
convert_case = "*"
twilight-model = "*"
twilight-http = "*"
twilight-gateway = "*"
twilight-util = { version = "*", features = ["builder"] }
tokio = { version = "*", features = ["macros", "rt-multi-thread", "sync"] }
futures-util = "*"
anyhow = "*"
log = "*"
tracing-subscriber = "*"
serde_json = "*"
lazy_static = "*"
thiserror = "*"
