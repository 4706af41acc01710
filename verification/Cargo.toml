[package]
name = "aws_context"
version = "0.1.0"
edition = "2021"
publish = false

[dependencies]
chrono = "0.4"
log = "0.4"
rust-ini = "0.21"
serde_json = "1"
sha1 = "0.10"
windows = { version = "0.61", default-features = false, features = ["Win32_Foundation", "Win32_Security", "Win32_Storage_FileSystem", "Win32_System_Threading", "Win32_UI_Shell"] }

[dev-dependencies]
nu-ansi-term = "*"
