[package]
name = "vcontrold_mqttd"
version = "0.1.0"
edition = "2021"
publish = false

[dependencies]
hostname = "=0.4.2"
rumqttc = "=0.24.0"
rustls = "=0.22.4"
rustls-pemfile = "=2.2.0"
serde_json = { version = "=1.0.154", features = ["preserve_order"] }
thiserror = "=1.0.69"
tokio = { version = "=1.54.1", features = ["full"] }
tracing = "=0.1.44"
tracing-subscriber = { version = "=0.3.23", features = ["env-filter"] }
webpki-roots = "=0.26.11"
