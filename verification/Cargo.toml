[package]
name = "periclaw"
version = "0.1.0"
edition = "2021"
publish = false

[dependencies]
base64 = "0.22"
directories = "5"
ed25519-dalek = { version = "2", features = ["rand_core"] }
futures-util = "0.3"
hex = "0.4"
iced = { version = "0.14", default-features = false, features = ["tiny-skia", "canvas", "tokio", "image-without-codecs", "x11"] }
image = { version = "0.25", default-features = false, features = ["png"] }
keyring = { version = "3", default-features = false, features = ["linux-native"] }
rand = "0.8"
rustls = { version = "0.23", default-features = false, features = ["ring", "std", "tls12"] }
serde = { version = "1", features = ["derive"] }
serde_json = "1"
sha2 = "0.10"
tokio = { version = "1", features = ["macros", "net", "process", "rt", "sync", "time"] }
tokio-tungstenite = { version = "*", default-features = false, features = ["connect", "rustls-tls-webpki-roots"] }
tracing = "0.1"
tracing-subscriber = { version = "0.3", default-features = false, features = ["fmt"] }
uuid = { version = "1", features = ["v4"] }
