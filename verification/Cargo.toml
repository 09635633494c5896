[package]
name = "telemetry_session"
version = "0.1.0"
edition = "2021"
publish = false

[dependencies]
serde = { version = "=1.0.229", features = ["derive"] }
serde_json = "=1.0.154"
dsf-core = "=0.2.0"
dsf-client = "=0.2.0"
dsf-rpc = "=0.2.0"
sodiumoxide = "=0.2.6"
async-std = "=1.13.2"
futures = "=0.3.34"
bme280 = "=0.5.1"
linux-embedded-hal = "=0.5.0"
humantime = "=2.4.0"
log = "=0.4.34"
simplelog = "=0.12.2"
structopt = "=0.3.26"
