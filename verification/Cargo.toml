[package]
name = "network_retry"
version = "0.1.0"
edition = "2021"
publish = false

[dependencies]
anyhow = "=1.0.104"
curl = { version = "=0.4.51", default-features = false }
curl-sys = { version = "=0.4.91", default-features = false }
git2 = { version = "=0.21.0", default-features = false }
gix = { version = "=0.75.0", default-features = false, features = ["blocking-network-client"] }
kstring = ">=2.0.0, <=2.0.2"
