[package]
name = "esp-c3-nostd-examples"
version = "0.1.0"
edition = "2021"
publish = false

[dependencies]
embedded-hal-async = "1.0.0"
embassy-time = "0.5.0"
embassy-executor = "0.9.1"
log = "0.4"
esp-hal = "1.0.0"
esp-println = "0.16.0"
esp-backtrace = "0.18.1"
esp-bootloader-esp-idf = "*"
esp-rtos = "0.2.0"
