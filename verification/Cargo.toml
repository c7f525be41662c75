[package]
name = "payroll_attestation"
version = "0.1.0"
edition = "2021"
publish = false

[dependencies]
borsh = { version = "=1.8.1", features = ["derive", "unstable__schema"] }
near-sdk = "~5.5"
schemars = "=0.8.22"

[dev-dependencies]
sha2 = "=0.10.9"
