[package]
name = "zkbench"
version = "0.1.0"
edition = "2021"
publish = false

[dependencies]
bincode = "=1.3.3"
clap = { version = "=4.6.7", features = ["derive"] }
eyre = "=0.6.14"
openvm = "=2.0.2"
openvm-build = "=2.0.2"
openvm-sdk = "=2.0.2"
openvm-sdk-config = "=2.0.2"
openvm-stark-sdk = "=2.0.1"
openvm-transpiler = "=2.0.2"
serde = { version = "=1.0.229", features = ["derive"] }
