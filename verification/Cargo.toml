[package]
name = "meson_app"
version = "0.1.0"
edition = "2021"
publish = false

[dependencies]
base64 = "0.22"
serde = { version = "1", features = ["derive"] }
serde_json = "1"
thiserror = "2"
tracing = "0.1"
chrono = "0.4"
anyhow = "1"
leptos = "0.8"
leptos_router = "0.8"
