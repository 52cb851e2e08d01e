[package]
name = "sandbox_control"
version = "0.1.0"
edition = "2021"
publish = false

[dependencies]
async-compression = { version = "0.4", features = ["tokio", "zstd"] }
bytes = "1"
hex = "0.4"
oci-spec = { version = "*", default-features = false, features = ["image"] }
scopeguard = "1"
serde = { version = "1", features = ["derive"] }
serde_json = "1"
sha2 = "0.10"
thiserror = "2"
tokio = { version = "1", features = ["fs", "io-util", "macros", "net", "rt", "rt-multi-thread", "sync", "time"] }
tracing = "0.1"
zstd = "0.13"
