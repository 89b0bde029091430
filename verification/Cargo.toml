[package]
name = "rustwood"
version = "0.1.0"
edition = "2021"
publish = false

[dependencies]
serde = { version = "1", default-features = false, features = ["derive"] }
postcard = "1"
embedded-storage = "*"
embassy-sync = "*"
embassy-time = "*"
embassy-executor = "*"
embassy-net = "*"
picoserve = "*"
defmt = "*"
defmt-rtt = "*"
static_cell = "*"
esp-hal = "*"
esp-storage = "*"
esp-println = "*"
esp-radio = "*"
esp-rtos = "*"
esp-alloc = "*"
esp-backtrace = "*"
esp-bootloader-esp-idf = "*"
