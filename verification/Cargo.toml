[package]
name = "passhub"
version = "0.1.0"
edition = "2021"
publish = false

[dependencies]
aes-gcm = "0.10"
argon2 = "0.5"
base64 = "0.22"
rand = "0.8"
regex = "1"
sha2 = "0.10"
url = "2"
zeroize = "1"
serde = { version = "1", features = ["derive"] }
serde_json = "1"
reqwest = { version = "0.12", features = ["blocking", "json"] }
directories = "5"
log = "0.4"
ratatui = "0.29"
crossterm = "0.28"
copypasta = "0.10"
