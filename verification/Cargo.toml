[package]
name = "circuit_ledger"
version = "0.1.0"
edition = "2021"
publish = false

[dependencies]
indexmap = "2"
once_cell = "1"
snarkvm-curves = "0.16"
snarkvm-fields = "0.16"
snarkvm-utilities = "0.16"
snarkvm-console = "0.16"
snarkvm-synthesizer-program = "0.16"
