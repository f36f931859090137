[package]
name = "pocket_relay_mitm"
version = "0.1.0"
edition = "2021"
publish = false

[dependencies]
blaze-pk = "=0.8.7"
blaze-ssl-async = "=0.3.7"
log = "=0.4.35"
log4rs = { version = "=1.4.0", default-features = false, features = ["console_appender", "file_appender", "pattern_encoder"] }
reqwest = { version = "=0.12.28", default-features = false, features = ["json", "rustls-tls"] }
serde = { version = "=1.0.229", features = ["derive"] }
tokio = { version = "=1.54.1", features = ["full"] }
