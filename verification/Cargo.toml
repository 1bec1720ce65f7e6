[package]
name = "nanomsg_tokio"
version = "0.1.0"
edition = "2021"
publish = false

[dependencies]
nanomsg = "*"
tokio-core = "0.1"
futures = "0.1"
mio = "0.6"
log = "0.4"
flexi_logger = "0.5"
colored_logger = "*"
