[package]
name = "yamux"
version = "0.1.0"
edition = "2021"
publish = false

[dependencies]
bytes = "1"
futures = "0.3"
log = "0.4"
nohash-hasher = "0.2"
parking_lot = "0.12"
rand = "0.8"
thiserror = "1"
tokio = { version = "1", features = ["net", "rt", "rt-multi-thread", "time"] }
tokio-util = { version = "0.7", features = ["codec", "compat"] }
zerocopy = "0.7"

[dev-dependencies]
quickcheck = "1"
