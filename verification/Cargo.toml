[package]
name = "streamline_control"
version = "0.1.0"
edition = "2021"
publish = false

[dependencies]
port_scanner = "=0.1.5"
mime_guess = "=2.0.5"
warp = { version = "=0.4.3", features = ["server"] }
tokio = { version = "=1.53.2", features = ["full"] }
rusqlite = { version = "=0.40.2", features = ["bundled"] }
refinery = { version = "=0.10.0", default-features = false, features = ["rusqlite"] }
app_dirs2 = "=2.5.5"
webbrowser = "=1.2.4"
