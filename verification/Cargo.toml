[package]
name = "borkcraftclient"
version = "0.1.0"
edition = "2021"
publish = false

[dependencies]
serde = { version = "1", features = ["derive"] }
serde_derive = "1"
serde_json = "1"
ureq = { version = "2", features = ["json"] }
eframe = { version = "0.21", default-features = false, features = ["glow"] }
egui_extras = { version = "0.21", features = ["image"] }
