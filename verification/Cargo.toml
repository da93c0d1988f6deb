[package]
name = "github_verify"
version = "0.1.0"
edition = "2021"
publish = false

[dependencies]
reqwest = { version = "=0.13.5", default-features = false }
serenity = { version = "=0.12.5", default-features = false, features = ["builder", "model", "rustls_backend"] }
