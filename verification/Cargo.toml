[package]
name = "lcu_connect"
version = "0.1.0"
edition = "2021"
publish = false

[dependencies]
anyhow = "=1.0.104"
base64 = "=0.22.1"
regex = "=1.13.1"
reqwest = { version = "=0.12.28", default-features = false, features = ["rustls-tls"] }
rustls = "=0.23.46"
serde_json = "=1.0.154"
shaco = "=0.6.0"
sysinfo = "=0.39.6"
tokio = { version = "=1.54.1", features = ["rt", "sync", "time"] }
tokio-tungstenite = { version = "=0.30.0", default-features = false, features = ["rustls-tls-webpki-roots"] }
windows-sys = { version = "=0.61.2", features = ["Win32_Foundation", "Win32_UI_Shell", "Win32_UI_WindowsAndMessaging"] }
