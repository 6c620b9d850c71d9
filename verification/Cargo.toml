[package]
name = "zkvm_prover"
version = "0.1.0"
edition = "2021"
publish = false

[dependencies]
bincode = "1.3"
bytemuck = "1"
getrandom = "0.2"
serde = { version = "1", features = ["derive"] }
thiserror = "1"
