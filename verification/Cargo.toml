[package]
name = "gpui_ios"
version = "0.1.0"
edition = "2021"
publish = false

[dependencies]
uuid = { version = "1", features = ["v5"] }
anyhow = "1"
log = "0.4"
futures = "0.3"
async-task = "4"
raw-window-handle = "0.6"
objc2 = "0.6"
objc2-foundation = "0.3"
objc2-ui-kit = "0.3"
objc2-quartz-core = "0.3"
dispatch2 = "0.3"
windows = { version = "0.61", features = ["Win32_Foundation", "Win32_UI_WindowsAndMessaging"] }
