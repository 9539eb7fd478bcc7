[package]
name = "chuck_norust"
version = "0.1.0"
edition = "2021"
publish = false

[dependencies]
native-windows-gui = "*"
reqwest = { version = "*", default-features = false, features = ["blocking", "json", "rustls-tls"] }
serde = { version = "*", features = ["derive"] }
winreg = "*"
