[package]
name = "cavin_tools"
version = "0.1.0"
edition = "2021"
publish = false

[dependencies]
rcgen = { version = "0.13", default-features = false, features = ["crypto", "pem", "ring"] }
time = "0.3"
uuid = { version = "1", features = ["v4"] }
chrono = "0.4"
tokio = { version = "1", features = ["full"] }
hyper = { version = "1", features = ["full"] }
hyper-util = { version = "0.1", features = ["full"] }
http-body-util = "0.1"
bytes = "1"
reqwest = { version = "0.12", default-features = false, features = ["rustls-tls"] }
rustls = { version = "0.23", default-features = false, features = ["ring", "logging", "std", "tls12"] }
tokio-rustls = { version = "0.26", default-features = false, features = ["ring", "logging", "tls12"] }
rustls-pemfile = "2"
parking_lot = "0.12"
sysinfo = "*"
serde = { version = "1", features = ["derive"] }
serde_json = "1"

[dev-dependencies]
x509-parser = "*"
