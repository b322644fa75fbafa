[package]
name = "minidisplay"
version = "0.1.0"
edition = "2021"
publish = false

[dependencies]
winapi = { version = "0.3", features = ["basetsd", "minwindef", "ntdef", "windef", "winerror", "wingdi", "winnt", "winuser"] }
