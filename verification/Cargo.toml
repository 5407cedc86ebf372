[package]
name = "worddrop"
version = "0.1.0"
edition = "2021"
publish = false

[dependencies]
argon2 = { version = "=0.5.3", default-features = false, features = ["alloc"] }
axum = { version = "0.8", default-features = false, features = ["http1", "json", "tokio"] }
clap = { version = "4", features = ["derive"] }
dirs = "6"
hkdf = "=0.12.4"
indicatif = "0.17"
iroh-base = { version = "=1.0.3", features = ["key", "relay"] }
n0-future = "0.3"
rand = "=0.9.5"
rand_chacha = "0.3"
rumqttc = { version = "0.25", default-features = false, features = ["use-rustls-no-provider"] }
rustls = { version = "0.23", default-features = false, features = ["ring", "std"] }
serde = { version = "1", features = ["derive"] }
serde_json = "=1.0.154"
sha2 = "=0.10.9"
spake2 = "=0.4.0"
tokio = { version = "1", features = ["full"] }
tokio-rustls = { version = "0.26", default-features = false }
toml = "0.9"
tracing = "0.1"
tracing-subscriber = { version = "0.3", default-features = false, features = ["env-filter", "fmt"] }
url = "=2.5.8"
webpki-roots = "1"
zeroize = "1"
