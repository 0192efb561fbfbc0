[package]
name = "chmod_bpf"
version = "0.1.0"
edition = "2021"
publish = false

[dependencies]
anstream = "0.6"
anstyle = "1"
anyhow = "1"
chrono = "0.4"
clap = { version = "4", features = ["derive"] }
inquire = "0.7"
termtree = "0.5"
tracing = "0.1"
tracing-subscriber = { version = "0.3", features = ["env-filter", "chrono"] }
uzers = "0.12"
