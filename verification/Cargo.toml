[package]
name = "texworker"
version = "0.1.0"
edition = "2021"
publish = false

[dependencies]
clap = { version = "*", features = ["derive"] }
string-interner = "*"
tectonic_errors = "*"
tectonic_status_base = "*"
threadpool = "*"
walkdir = "*"
