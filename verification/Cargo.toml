[package]
name = "loft"
version = "0.1.0"
edition = "2021"
publish = false

[dependencies]
anyhow = "=1.0.104"
ashpd = { version = "=0.13.13", features = ["background", "gtk4"] }
dirs = "=5.0.1"
gtk4 = "=0.11.5"
image = { version = "=0.25.10", default-features = false, features = ["png", "ico"] }
ksni = "=0.3.7"
libadwaita = { version = "=0.9.2", features = ["v1_5"] }
libc = "=0.2.191"
reqwest = { version = "=0.12.28", default-features = false, features = ["blocking", "rustls-tls"] }
serde = { version = "=1.0.229", features = ["derive"] }
serde_json = "=1.0.154"
tokio = { version = "=1.54.1", features = ["full"] }
toml = "=0.8.23"
tracing = "=0.1.44"
tracing-appender = "=0.2.5"
tracing-subscriber = { version = "=0.3.23", features = ["env-filter"] }
zbus = { version = "=5.19.0", default-features = false, features = ["tokio"] }
