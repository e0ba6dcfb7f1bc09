[package]
name = "deno_raw_http"
version = "0.1.0"
edition = "2021"
publish = false

[dependencies]
anyhow = "=1.0.104"
bytes = "=1.12.1"
hyper = { version = "=1.0.0-rc.3", features = ["http1", "server"] }
libc = "=0.2.191"
percent-encoding = "=2.3.2"
slab = "=0.4.12"
thiserror = "=1.0.69"
tokio = { version = "=1.54.1", features = ["net", "rt", "sync"] }
