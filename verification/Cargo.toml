[package]
name = "support_cafe"
version = "0.1.0"
edition = "2021"
publish = false

[dependencies]
url = "=2.5.8"
serde = { version = "=1.0.229", features = ["derive"] }
serde_json = "=1.0.154"
clap = { version = "=4.6.7", features = ["derive", "env"] }
config = "=0.15.27"
eyre = "=0.6.14"
secrecy = "=0.10.3"
psc-nanoid = { version = "=3.2.0", features = ["packed", "serde"] }
tracing = "=0.1.44"
worktable = "=1.13.0"
nagoya = "=0.1.19"
nago-http = "=0.1.5"
futures = "=0.3.34"
tokio = { version = "=1.54.1", features = ["rt-multi-thread"] }
tracing-subscriber = { version = "=0.3.23", features = ["env-filter"] }
tempfile = "=3.27.0"
rustls = { version = "=0.23.46", default-features = false, features = ["ring", "std"] }
