[package]
name = "atsamd_hal"
version = "0.1.0"
edition = "2021"
publish = false

[dependencies]
usb-device = "=0.3.2"
embedded-dma = "=0.2.0"
cortex-m = "=0.7.10"
