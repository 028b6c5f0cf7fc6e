[package]
name = "groth16_solana"
version = "0.1.0"
edition = "2021"
publish = false

[dependencies]
solana-program = "1.18"
bytemuck = { version = "1", features = ["derive"] }
thiserror = "1"

[dev-dependencies]
ark-bn254 = "0.4"
ark-serialize = "0.4"
ark-ec = "0.4"
ark-ff = "0.4"
