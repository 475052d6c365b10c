[package]
name = "frc"
version = "0.1.0"
edition = "2021"
publish = false

[dependencies]
anyhow = "1"
cxx = "1"
nalgebra = "0.32"
num-traits = "0.2"
optimization_engine = "*"
thiserror = "1"
tokio = { version = "1", features = ["rt-multi-thread", "macros", "sync", "time"] }
