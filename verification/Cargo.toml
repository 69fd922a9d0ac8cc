[package]
name = "record_to_gif"
version = "0.1.0"
edition = "2021"
publish = false

[dependencies]
gif = "0.13"
image = { version = "0.25", default-features = false, features = ["png"] }
tokio = { version = "1", features = ["rt", "rt-multi-thread"] }
iced = { version = "0.12", default-features = false, features = ["tokio"] }
rfd = { version = "0.14", default-features = false, features = ["xdg-portal", "tokio"] }
