[package]
name = "web_pinger"
version = "0.1.0"
edition = "2021"
publish = false

[dependencies]
reqwest = { version = "=0.13.5", default-features = false, features = ["blocking", "native-tls"] }
tokio = { version = "=1.53.2", default-features = false, features = ["rt-multi-thread", "net", "time"] }
futures = "=0.3.34"
clap = { version = "=4.6.7", features = ["derive"] }

[dev-dependencies]
tiny_http = "=0.12.0"
