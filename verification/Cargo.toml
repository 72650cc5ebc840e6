[package]
name = "rblx_rich_presence"
version = "0.1.0"
edition = "2021"
publish = false

[dependencies]
base64 = "0.13"
url = "2"
serde = { version = "1", features = ["derive"] }
serde_json = "1"
toml = "0.5"
reqwest = { version = "0.11", default-features = false, features = ["blocking", "json", "rustls-tls"] }
sysinfo = "0.15"
rustcord = "0.2"
json = "0.12"
winreg = "0.8"
winapi = { version = "0.3", features = ["winuser", "wincon", "processenv", "winbase", "shellapi", "minwindef", "windef", "guiddef"] }
