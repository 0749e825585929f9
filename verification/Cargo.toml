[package]
name = "zcash_verifier"
version = "0.1.0"
edition = "2021"
publish = false

[dependencies]
anyhow = "=1.0.104"
axum = "=0.8.9"
bip39 = "=2.2.2"
blake2b_simd = "=1.0.5"
bs58 = { version = "=0.5.1", features = ["check"] }
chrono = "=0.4.45"
clap = { version = "=4.6.7", features = ["derive"] }
hex = "=0.4.3"
orchard = "=0.16.0"
prost = "=0.14.4"
reqwest = { version = "=0.12.28", default-features = false, features = ["json"] }
ripemd = "=0.1.3"
secp256k1 = { version = "=0.29.1", features = ["recovery"] }
serde = { version = "=1.0.229", features = ["derive"] }
serde_json = "=1.0.154"
sha2 = "=0.10.9"
sqlx = { version = "=0.8.6", default-features = false, features = ["runtime-tokio", "sqlite"] }
thiserror = "=1.0.69"
tokio = { version = "=1.54.1", features = ["full"] }
tonic = { version = "=0.14.9", features = ["tls-ring", "tls-webpki-roots"] }
tower-http = { version = "=0.6.11", features = ["cors", "fs"] }
tracing = "=0.1.44"
tracing-subscriber = { version = "=0.3.23", features = ["env-filter"] }
zcash_address = "=0.14.0"
zcash_note_encryption = "=0.5.1"
zcash_protocol = "=0.11.0"
zip32 = "=0.3.0"
