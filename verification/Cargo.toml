[package]
name = "app-store-server-library"
version = "0.1.0"
edition = "2021"
publish = false

[dependencies]
base64 = "=0.22.1"
x509-validator = { version = "=0.3.1", features = ["rust_crypto"] }
p256 = { version = "=0.13.2", features = ["ecdsa", "pkcs8", "pem"] }
pem-rfc7468 = "=0.7.0"
signature = "=2.2.0"
serde = { version = "=1.0.229", features = ["derive"] }
serde_json = { version = "=1.0.154", features = ["preserve_order"] }
serde_repr = "=0.1.21"
uuid = { version = "=1.29.1", features = ["v4"] }
chrono = "=0.4.45"
thiserror = "=2.0.21"
http = "=1.5.0"
const-oid = "=0.9.6"
der = "=0.7.10"
sha1 = "=0.10.7"
x509-cert = "=0.2.5"
x509-ocsp = "=0.2.1"
reqwest = { version = "0.12", default-features = false, features = ["blocking"] }
