[package]
name = "taskflow"
version = "0.1.0"
edition = "2021"
publish = false

[dependencies]
egui_extras = { version = "=0.19.0", features = ["image"] }
eframe = "=0.19.0"
flowync = "=5.1.0"
image = { version = "=0.24.9", default-features = false, features = ["png", "jpeg", "bmp"] }
reqwest = { version = "=0.11.27", default-features = false, features = ["rustls-tls"] }
tokio = { version = "=1.53.2", features = ["rt-multi-thread"] }
