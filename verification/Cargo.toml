[package]
name = "flops_bench"
version = "0.1.0"
edition = "2021"
publish = false

[dependencies]
burn = { version = "=0.14.0", default-features = false, features = ["std", "ndarray"] }
clap = { version = "=4.5.61", features = ["derive"] }
tracing = "=0.1.44"
tracing-subscriber = { version = "=0.3.23", default-features = false, features = ["fmt"] }
