[package]
name = "zmq_tokio"
version = "0.1.0"
edition = "2021"
publish = false

[dependencies]
futures = "=0.1.31"
futures-cpupool = "=0.1.8"
log = "=0.3.9"
mio = "=0.6.23"
tokio-core = "=0.1.18"
tokio-io = "=0.1.13"
zmq = "=0.8.3"
