[package]
name = "yall"
version = "0.1.0"
edition = "2021"
publish = false

[dependencies]
aes-gcm = "=0.10.3"
argon2 = "=0.5.3"
zeroize = "=1.9.1"
serde = { version = "1", features = ["derive"] }
serde_json = "=1.0.154"
chrono = "=0.4.45"
mime_guess = "=2.0.5"
reqwest = { version = "=0.12.28", default-features = false, features = ["json", "multipart", "rustls-tls"] }
nostr-sdk = "=0.43.0"
rfd = "*"
i18n-embed = "*"
