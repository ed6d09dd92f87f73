[package]
name = "sentry_tunnel"
version = "0.1.0"
edition = "2021"
publish = false

[dependencies]
serde_json = "=1.0.151"
sentry-types = "=0.49.3"
url = "=2.5.8"
anyhow = "=1.0.104"
log = "=0.4.34"
mime = "=0.3.17"
gotham = "=0.7.4"
gotham_derive = "=0.7.1"
isahc = "=2.0.1"
envmnt = "=0.10.4"
stderrlog = "=0.6.0"
tokio = { version = "=1.53.2", features = ["full"] }
futures-util = "=0.3.34"
