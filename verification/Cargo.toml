[package]
name = "telestrator"
version = "0.1.0"
edition = "2021"
publish = false

[dependencies]
anyhow = "1"
bytes = "1"
ndi = "*"
once_cell = "1"
openh264 = "*"
openh264-sys2 = "*"
static_dir = "*"
thiserror = "1"
tokio = { version = "1", features = ["full"] }
uuid = { version = "1", features = ["v4"] }
warp = "0.3"
webrtc = "0.11"
