[package]
name = "soil_sensor_core"
version = "0.1.0"
edition = "2021"
publish = false

[dependencies]
embassy-time = "*"
embassy-sync = "*"
embassy-futures = "*"
embassy-executor = "*"
embassy-embedded-hal = "*"
embedded-storage-async = "*"
esp-hal = "*"
esp-storage = "*"
esp-alloc = "*"
esp-backtrace = "*"
esp-println = "*"
esp-rtos = "*"
esp-bootloader-esp-idf = "*"
esp-metadata-generated = "*"
sequential-storage = "*"
rs-matter-embassy = "*"
log = "*"
nb = "*"
static_cell = "*"
tinyrlibc = "*"
