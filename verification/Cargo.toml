[package]
name = "pico_rw_mock"
version = "0.1.0"
edition = "2021"
publish = false

[dependencies]
zerocopy = "=0.8.63"
embedded-hal = "=1.0.0"
rp-pico = "=0.9.0"
cortex-m-rt = "=0.7.7"
usb-device = "=0.3.2"
usbd-hid = "=0.10.2"
panic-halt = "=1.0.0"
