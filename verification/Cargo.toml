[package]
name = "sunshine-tray"
version = "0.1.0"
edition = "2021"
publish = false

[dependencies]
ksni = { version = "0.3", features = ["blocking"] }
notify-rust = "=4.18.2"
image = { version = "=0.24.9", default-features = false, features = ["png"] }
