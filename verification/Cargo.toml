[package]
name = "lan_mouse_clipboard"
version = "0.1.0"
edition = "2021"
publish = false

[dependencies]
async-trait = "=0.1.92"
local-channel = "=0.1.5"
log = "=0.4.35"
objc2 = "=0.6.5"
objc2-app-kit = "=0.3.2"
objc2-foundation = "=0.3.2"
postcard = { version = "=1.1.3", features = ["use-std"] }
rustls = { version = "=0.23.46", default-features = false, features = ["std", "ring", "tls12"] }
serde = "=1.0.229"
sha2 = "=0.10.9"
socket2 = { version = "=0.5.10", features = ["all"] }
thiserror = "=2.0.21"
tokio = { version = "=1.54.1", features = ["io-util", "macros", "net", "rt", "sync", "time"] }
tokio-rustls = { version = "=0.26.6", default-features = false, features = ["ring", "tls12"] }
wayland-client = "=0.31.15"
wayland-protocols = { version = "=0.32.13", features = ["client", "staging"] }
wayland-protocols-wlr = { version = "=0.3.12", features = ["client"] }
webrtc-dtls = "=0.12.0"
