[package]
name = "rp2040_kbd"
version = "0.1.0"
edition = "2021"
publish = false

[dependencies]
heapless = "=0.8.0"
rp2040-hal = "=0.10.2"
usbd-hid = "=0.8.2"
usb-device = "=0.3.2"
embedded-hal = "=1.0.0"
embedded-graphics = "=0.8.2"
ssd1306 = "=0.9.0"
usbd-serial = "=0.2.2"
pio-uart = "=0.3.0"
