[package]
name = "launcher_auth"
version = "0.1.0"
edition = "2021"
publish = false

[dependencies]
base64 = "*"
urlencoding = "*"
serde_json = "*"
openidconnect = "*"
reqwest = { version = "*", default-features = false, features = ["blocking", "json"] }
