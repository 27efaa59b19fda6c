[package]
name = "nixy-greeter"
version = "0.1.0"
edition = "2021"
publish = false

[dependencies]
greetd_ipc = { version = "0.10", features = ["sync-codec"] }
gtk4 = "*"
zeroize = "1"
