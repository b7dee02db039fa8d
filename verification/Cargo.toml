[package]
name = "editor"
version = "0.1.0"
edition = "2021"
publish = false

[dependencies]
iced = { version = "=0.12.1", default-features = false, features = ["advanced", "highlighter", "tokio"] }
rfd = { version = "0.15", default-features = false, features = ["xdg-portal", "tokio"] }
tokio = { version = "=1.54.1", features = ["fs"] }
