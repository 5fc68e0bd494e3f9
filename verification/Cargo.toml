[package]
name = "secure_tcp_gender_changer"
version = "0.1.0"
edition = "2021"
publish = false

[dependencies]
clap = { version = "=4.6.7", features = ["derive"] }
color-eyre = "=0.6.5"
rcgen = "=0.11.3"
tokio = { version = "=1.53.2", features = ["rt-multi-thread", "macros", "net", "io-util"] }
tokio-rustls = { version = "=0.24.1", features = ["dangerous_configuration"] }
