[package]
name = "sleeplight"
version = "0.1.0"
edition = "2021"
publish = false

[dependencies]
smart-leds = "*"
esp-hal = "*"
esp-hal-smartled = "*"
esp-radio = "*"
esp-rtos = "*"
esp-alloc = "*"
esp-bootloader-esp-idf = "*"
embassy-executor = "*"
embassy-futures = "*"
embassy-sync = "*"
embassy-time = "*"
trouble-host = "*"
bt-hci = "*"
rtt-target = "*"
static_cell = "*"
