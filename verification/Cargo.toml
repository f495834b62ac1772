[package]
name = "starter"
version = "0.1.0"
edition = "2021"
publish = false

[dependencies]
axum = "*"
axum-htmx = "*"
minijinja = { version = "*", features = ["loader"] }
tokio = { version = "*", features = ["full"] }
tower-http = { version = "*", features = ["fs"] }
tower-livereload = "*"
