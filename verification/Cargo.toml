[package]
name = "msf60_utils"
version = "0.1.0"
edition = "2021"
publish = false

[dependencies]
radio_datetime_utils = "=1.0.1"
