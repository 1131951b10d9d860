[package]
name = "rusty_probe"
version = "0.1.0"
edition = "2021"
publish = false

[dependencies]
cortex-m = "=0.7.10"
dap-rs = "=0.2.0"
defmt = "=1.2.0"
defmt-rtt = "=1.3.1"
embassy-executor = "=0.9.1"
embassy-futures = "=0.1.2"
embassy-rp = { version = "=0.8.0", features = ["rp2040", "time-driver", "critical-section-impl"] }
embassy-time = "=0.5.1"
embassy-usb = { version = "=0.5.1", features = ["defmt"] }
heapless = "=0.8.0"
panic-probe = "=1.0.0"
static_cell = "=2.1.1"
