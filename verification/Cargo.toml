[package]
name = "lsp_fuzz"
version = "0.1.0"
edition = "2021"
publish = false

[dependencies]
serde = { version = "=1.0.229", features = ["derive"] }
serde_json = "=1.0.154"
lsp-types = "=0.97.0"
libafl_bolts = { version = "=0.16.1", default-features = false, features = ["std"] }
libafl = { version = "=0.16.1", default-features = false, features = ["std"] }
fastbloom = { version = "=0.17.0", default-features = false, features = ["std"] }
ahash = { version = "=0.8.12", default-features = false, features = ["std"] }
