[package]
name = "space_cleanup"
version = "0.1.0"
edition = "2021"
publish = false

[dependencies]
macroquad = { version = "=0.3.26", default-features = false }
egui-macroquad = "*"

[dev-dependencies]
serde_json = "*"
