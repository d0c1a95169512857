[package]
name = "siffleux"
version = "0.1.0"
edition = "2021"
publish = false

[dependencies]
argon2 = "0.5"
getrandom = "0.3"
base64 = "0.22"
sha2 = "0.10"
rcgen = { version = "0.14", default-features = false, features = ["crypto", "pem", "ring"] }
snow = "0.10"
quinn = { version = "0.11", default-features = false, features = ["runtime-tokio", "rustls-ring", "log"] }
quinn-udp = "0.5"
rustls = { version = "0.23", default-features = false, features = ["ring", "std", "logging", "tls12"] }
rustls-pki-types = { version = "1", features = ["std"] }
tokio = { version = "1", features = ["full"] }
tokio-util = { version = "0.7", features = ["codec", "io"] }
bytes = "1"
futures-util = { version = "0.3", features = ["sink"] }
parking_lot = "0.12"
socket2 = { version = "0.5", features = ["all"] }
tracing = "0.1"
tracing-subscriber = "0.3"
clap = { version = "4", features = ["derive"] }
serde = { version = "1", features = ["derive"] }
toml = "0.8"
async-trait = "0.1"
uuid = "1"
thiserror = "2"
