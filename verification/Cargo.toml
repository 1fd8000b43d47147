[package]
name = "leo_synth"
version = "0.1.0"
edition = "2021"
publish = false

[dependencies]
leo-errors = "=2.7.3"
snarkvm-fields = "=0.7.9"
snarkvm-gadgets = "=0.7.9"
snarkvm-r1cs = "=0.7.9"
backtrace = "=0.3.76"
eyre = "=0.6.14"
serde = { version = "=1.0.229", features = ["derive"] }
