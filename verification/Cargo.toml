[package]
name = "reqcli"
version = "0.1.0"
edition = "2021"
publish = false

[dependencies]
atty = "=0.2.14"
base64 = "=0.23.1"
clap = { version = "=4.6.7", features = ["derive"] }
colored = "=3.1.1"
reqwest = { version = "=0.13.5", default-features = false, features = ["blocking", "cookies", "multipart"] }
rpassword = "=7.5.4"
serde_json = { version = "=1.0.151", features = ["preserve_order"] }
serde_json5 = "=0.2.1"
url = "=2.5.8"
