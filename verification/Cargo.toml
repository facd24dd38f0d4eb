[package]
name = "tls_proof_verifier"
version = "0.1.0"
edition = "2021"
publish = false

[dependencies]
p256 = { version = "*", features = ["pem"] }
sha2 = "*"
rustls-webpki = { version = "*", features = ["ring"] }
rustls-pki-types = "*"
serde = { version = "*", features = ["derive"] }
serde_json = "*"
reqwest = { version = "*", default-features = false, features = ["json", "rustls-tls"] }
tokio = { version = "*", features = ["macros", "rt-multi-thread"] }
chrono = "*"
dotenv = "*"
tracing-subscriber = "*"

[dev-dependencies]
rcgen = "*"
