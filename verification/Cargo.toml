[package]
name = "gambit"
version = "0.1.0"
edition = "2021"
publish = false

[dependencies]
chess = "3.2"
shell-escape = "0.1"
clap = { version = "4", features = ["derive"] }
anyhow = "1"
tracing = "0.1"
tracing-subscriber = "0.3"
crossbeam-channel = "0.5"
dirs = "5"
zip = { version = "*", default-features = false, features = ["deflate"] }
reqwest = { version = "0.12", default-features = false, features = ["blocking", "rustls-tls"] }
