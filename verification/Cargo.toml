[package]
name = "udp_link"
version = "0.1.0"
edition = "2021"
publish = false

[dependencies]
async-std = { version = "1.12", features = ["unstable"] }
async-trait = "0.1"
log = "0.4"
zenoh-collections = "0.6.0-beta.1"
zenoh-core = "0.6.0-beta.1"
zenoh-link-commons = "0.6.0-beta.1"
zenoh-protocol-core = "0.6.0-beta.1"
zenoh-sync = "0.6.0-beta.1"
zenoh-util = "0.6.0-beta.1"
