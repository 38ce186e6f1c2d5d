[package]
name = "runng"
version = "0.1.0"
edition = "2021"
publish = false

[dependencies]
byteorder = "=1.5.0"
futures = "=0.3.34"
log = "=0.4.35"
thrift = "=0.25.0"
uuid = "=1.29.0"
