[package]
name = "bath_monitor"
version = "0.1.0"
edition = "2021"
publish = false

[dependencies]
heapless = "=0.9.3"
smart-leds = "=0.4.0"
log = "=0.4.35"
static_cell = "=2.1.1"
embassy-sync = "=0.8.0"
embassy-time = "=0.5.1"
embassy-executor = "=0.10.0"
embassy-net = { version = "=0.9.1", features = ["tcp", "dns", "dhcpv4"] }
embassy-rp = { version = "=0.10.0", features = ["rp235xa"] }
embassy-usb-logger = "=0.6.0"
cyw43 = "=0.7.0"
cyw43-pio = "=0.10.0"
reqwless = { version = "=0.14.0", default-features = false }
panic-halt = "=1.0.0"
