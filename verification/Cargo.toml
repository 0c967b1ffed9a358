[package]
name = "nexus_core"
version = "0.1.0"
edition = "2021"
publish = false

[dependencies]
aes-gcm = "0.10"
base64 = "0.22"
chrono = { version = "0.4", default-features = false, features = ["clock", "std"] }
rand = "0.8"
regex = "1"
serde_json = "1"
urlencoding = "2"
serde = { version = "1", features = ["derive"] }
reqwest = { version = "0.12", default-features = false, features = ["json", "cookies", "rustls-tls"] }
tokio = { version = "1", features = ["rt", "rt-multi-thread", "time"] }
rusqlite = { version = "0.31", features = ["bundled"] }
dirs = "5"
futures = "0.3"
chromiumoxide = { version = "*", default-features = false, features = ["tokio-runtime"] }
winreg = "0.52"
winapi = { version = "0.3", features = ["synchapi", "handleapi", "winbase", "minwindef", "dpapi", "wincrypt"] }
windows = { version = "0.58", default-features = false, features = ["Win32_Foundation", "Win32_Security_Cryptography"] }
