[package]
name = "servo_by_light"
version = "0.1.0"
edition = "2021"
publish = false

[dependencies]
cortex-m = "=0.7.10"
embedded-hal = "=1.0.0"
heapless = "=0.8.0"
panic-halt = "=1.0.0"
rp235x-hal = { version = "=0.4.0", features = ["binary-info", "critical-section-impl", "rt"] }
usb-device = "=0.3.2"
usbd-serial = "=0.2.2"
