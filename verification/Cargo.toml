[package]
name = "forward_resolver"
version = "0.1.0"
edition = "2021"
publish = false

[dependencies]
trust-dns-server = { version = "*", features = ["resolver"] }
trust-dns-proto = "*"
trust-dns-client = "*"
tokio = { version = "*", features = ["rt-multi-thread", "net", "time"] }
log = "*"
libc = "*"
