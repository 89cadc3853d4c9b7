[package]
name = "rapid_trigger"
version = "0.1.0"
edition = "2021"
publish = false

[dependencies]
defmt = "=0.3.101"
defmt-rtt = "=0.4.2"
embassy-futures = "=0.1.2"
embassy-usb = { version = "=0.2.0", features = ["defmt"] }
panic-probe = { version = "=0.3.2", features = ["print-defmt"] }
usbd-hid = "=0.7.1"

[dev-dependencies]
ssmarshal = { version = "=1.0.0", default-features = false }
