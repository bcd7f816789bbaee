[package]
name = "nixdeploy"
version = "0.1.0"
edition = "2021"
publish = false

[dependencies]
wildmatch = "=2.7.0"
serde = { version = "=1.0.229", features = ["derive"] }
serde_json = "=1.0.154"
thiserror = "=2.0.21"
clap = { version = "=4.6.7", features = ["derive"] }
tokio = { version = "=1.54.1", features = ["full"] }
tokio-stream = "=0.1.19"
async-stream = "=0.3.6"
async-trait = "=0.1.92"
openssh = { version = "=0.11.6", features = ["native-mux"] }
color-eyre = "=0.6.5"
indicatif = "=0.18.6"
owo-colors = "=4.4.0"
tracing = "=0.1.44"
tracing-subscriber = "=0.3.23"
