[package]
name = "vmedia"
version = "0.1.0"
edition = "2021"
publish = false

[dependencies]
gtk4 = { version = "=0.10.3", features = ["v4_10"] }
libadwaita = { version = "=0.8.1", features = ["v1_4"] }
libc = "=0.2.191"
serde = { version = "=1.0.229", features = ["derive"] }
serde_json = "=1.0.154"
tracing = "=0.1.44"
tracing-subscriber = { version = "=0.3.23", features = ["env-filter", "fmt"] }
