[package]
name = "mipsorcu"
version = "0.1.0"
edition = "2021"
publish = false

[dependencies]
sha3 = "=0.10.9"
hex = "=0.4.3"
serde = { version = "=1.0.229", features = ["derive"] }
serde_json = "=1.0.154"
x509-tsp = "=0.1.0"
cms = "=0.2.3"
der = "=0.7.10"
spki = "=0.7.3"
cmpv2 = "=0.2.0"
getrandom = "=0.3.4"
reqwest = { version = "=0.12.28", default-features = false }
tokio = { version = "=1.54.1", features = ["rt", "time", "sync", "macros"] }
tracing = "=0.1.44"
http = "=1.5.0"
time = { version = "0.3", features = ["parsing"] }
