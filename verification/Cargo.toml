[package]
name = "zephyr"
version = "0.1.0"
edition = "2021"
publish = false

[dependencies]
heapless = "0.8"
log = "0.4"
static_cell = "2"
embedded-io-async = "0.6"
embedded-batteries-async = "0.3"
embedded-fans-async = "0.2"
embedded-mcu-hal = "0.3"
embassy-sync = "0.7"
embassy-time = "0.4"
embassy-executor = "0.7"
