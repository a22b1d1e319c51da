[package]
name = "openrsynth"
version = "0.1.0"
edition = "2021"
publish = false

[dependencies]
serde = { version = "=1.0.229", features = ["derive"] }
quick-xml = { version = "=0.42.0", features = ["serialize"] }
libm = "=0.2.16"
embedded-hal = { version = "=0.2.7", features = ["unproven"] }
winit = "=0.30.13"
