[package]
name = "request_extract"
version = "0.1.0"
edition = "2021"
publish = false

[dependencies]
http = "0.2"
futures-util = "0.3"
