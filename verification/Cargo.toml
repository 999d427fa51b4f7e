[package]
name = "dfr_io_hat"
version = "0.1.0"
edition = "2021"
publish = false

[dependencies]
i2c-linux = "*"
