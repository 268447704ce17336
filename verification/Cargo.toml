[package]
name = "command_bridge"
version = "0.1.0"
edition = "2021"
publish = false

[dependencies]
base64 = "0.22"
serde_json = "1"
serde = { version = "1", features = ["derive"] }
once_cell = "1"
pyo3 = { version = "0.22", features = ["auto-initialize"] }
zeroize = { version = "1", features = ["zeroize_derive"] }
tiny-bip39 = "1"
qrcode = { version = "0.14", default-features = false, features = ["image"] }
image = { version = "0.25", default-features = false, features = ["png"] }
docx-rs = "0.4"
