[package]
name = "microbit_kit"
version = "0.1.0"
edition = "2021"
publish = false

[dependencies]
heapless = "0.9"
embedded-hal = "1.0"
cortex-m = "0.7"
cortex-m-rt = "0.7"
critical-section-lock-mut = "*"
microbit-v2 = "*"
nrf52833-pac = "0.12"
panic-rtt-target = "*"
rtt-target = "*"
lsm303agr = "*"
