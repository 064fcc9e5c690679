[package]
name = "crazyradio-webusb"
version = "0.1.0"
edition = "2021"
publish = false

[dependencies]
futures-util = "0.3"
js-sys = "0.3"
serde_json = "1"
thiserror = "1"
wasm-bindgen = { version = "0.2", features = ["serde-serialize"] }
wasm-bindgen-futures = "0.4"
web-sys = { version = "0.3", features = ["Navigator", "Usb", "UsbControlTransferParameters", "UsbDevice", "UsbDeviceRequestOptions", "UsbInTransferResult", "UsbOutTransferResult", "UsbRecipient", "UsbRequestType", "Window"] }
