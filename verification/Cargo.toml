[package]
name = "scene_loading"
version = "0.1.0"
edition = "2021"
publish = false

[dependencies]
anyhow = "=1.0.104"
glam = "=0.34.1"
glfw = "=0.41.0"
luminance-front = "=0.4.0"
luminance-glfw = "=0.16.0"
luminance-windowing = "=0.10.1"
serde = { version = "=1.0.229", features = ["derive"] }
serde_json = "=1.0.154"
specs = "=0.20.0"
tracing = "=0.1.44"
tracing-appender = "=0.2.5"
tracing-bunyan-formatter = "=0.3.11"
tracing-subscriber = { version = "=0.3.23", features = ["env-filter"] }
