[package]
name = "rd_agent"
version = "0.1.0"
edition = "2021"
publish = false

[dependencies]
anyhow = "1"
dirs = "*"
enigo = { version = "0.6", default-features = false, features = ["x11rb"] }
futures-util = "0.3"
macos-accessibility-client = "*"
objc2-core-foundation = "*"
objc2-core-media = "*"
objc2-core-video = "*"
objc2-video-toolbox = "*"
openh264 = "*"
reqwest = { version = "0.12", default-features = false, features = ["json"] }
rpassword = "*"
screencapturekit = "*"
serde = { version = "1", features = ["derive"] }
serde_json = "1"
tokio = { version = "1", features = ["macros", "net", "rt-multi-thread", "sync", "time"] }
tokio-tungstenite = "0.24"
tracing = "0.1"
tracing-subscriber = { version = "0.3", features = ["env-filter"] }
webrtc = "0.11"
yuv = "*"
