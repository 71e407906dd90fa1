[package]
name = "keybear_client"
version = "0.1.0"
edition = "2021"
publish = false

[dependencies]
anyhow = "=1.0.104"
chacha20poly1305 = "=0.7.1"
chbs = "=0.1.1"
clap = { version = "=4.6.7", features = ["cargo", "env"] }
directories-next = "=2.0.0"
human-panic = "=2.0.8"
keybear-core = "=0.3.2"
log = "=0.4.34"
reqwest = { version = "=0.13.5", default-features = false, features = ["json", "socks"] }
serde = { version = "=1.0.229", features = ["derive"] }
serde_json = "=1.0.154"
stderrlog = "=0.6.0"
tokio = { version = "=1.54.1", features = ["macros", "rt-multi-thread"] }
toml = "=1.1.8"
url = "=2.5.8"
x25519-dalek = "=1.2.0"
