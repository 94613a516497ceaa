[package]
name = "iroh_ffi"
version = "0.1.0"
edition = "2021"
publish = false

[dependencies]
iroh = { version = "=1.3.0", default-features = false }
iroh-blobs = { version = "=0.103.1", default-features = false, features = ["fs-store"] }
iroh-gossip = { version = "=0.101.0", default-features = false, features = ["net"] }
tokio = { version = "=1.53.2", features = ["rt-multi-thread", "macros", "sync", "time", "fs"] }
tokio-util = "=0.7.19"
bytes = "=1.12.1"
futures = "=0.3.34"
anyhow = "=1.0.104"
tracing = "=0.1.44"
