[package]
name = "hedera"
version = "0.1.0"
edition = "2021"
publish = false

[dependencies]
hedera-proto = "=0.20.0"
tonic = "=0.12.3"
prost = "=0.13.5"
time = "=0.3.55"
serde = { version = "=1.0.229", features = ["derive"] }
serde_json = "=1.0.154"
async-trait = "=0.1.92"
