[package]
name = "keymatrix"
version = "0.1.0"
edition = "2021"
publish = false

[dependencies]
cortex-m = "=0.7.9"
cortex-m-rt = "=0.7.7"
defmt-rtt = "=0.4.2"
embedded-hal = "=0.2.7"
panic-probe = "=0.3.2"
rp-pico = "=0.8.0"
usb-device = "=0.2.9"
usbd-hid = "=0.6.2"
