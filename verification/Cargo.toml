[package]
name = "vrcx_bir"
version = "0.1.0"
edition = "2021"
publish = false

[dependencies]
base64 = "0.22"
urlencoding = "2"
serde = { version = "1", features = ["derive"] }
serde_json = "1"
thiserror = "2"
tokio = { version = "1", features = ["rt", "sync", "macros", "time"] }
tokio-tungstenite = { version = "*", default-features = false, features = ["connect", "rustls-tls-webpki-roots"] }
futures-util = "0.3"
url = "2"
reqwest = { version = "*", default-features = false, features = ["json", "cookies", "rustls-tls"] }
keyring = "*"
redb = "*"
moka = { version = "*", features = ["future"] }
directories = "*"
