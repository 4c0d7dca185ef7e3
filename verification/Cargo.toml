[package]
name = "sensirion_slf"
version = "0.1.0"
edition = "2021"
publish = false

[dependencies]
embedded-hal = "=1.0.0"
log = "=0.4.35"
embedded-graphics = "=0.8.2"
embedded-graphics-framebuf = "=0.5.0"
embedded-iconoir = { version = "=0.2.3", features = ["18px"] }
mipidsi = "=0.10.0"
button-driver = "=0.2.5"
esp-hal = { version = "=1.2.2", features = ["esp32s3", "unstable"] }
esp-alloc = "=0.11.0"
esp-println = { version = "=0.18.0", features = ["esp32s3", "log-04"] }
esp-bootloader-esp-idf = { version = "=0.6.0", features = ["esp32s3"] }

[dev-dependencies]
embedded-hal-mock = "=0.11.1"
