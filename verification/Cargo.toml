[package]
name = "titration_curve"
version = "0.1.0"
edition = "2021"
publish = false

[dependencies]
anyhow = "1"
calamine = "0.22"
notify = "6.1"
rfd = { version = "0.12", default-features = false, features = ["xdg-portal"] }
svg = "0.14"
