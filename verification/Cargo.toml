[package]
name = "geolocator"
version = "0.1.0"
edition = "2021"
publish = false

[dependencies]
windows-result = "=0.4.1"
windows = { version = "=0.62.2", features = ["Devices_Geolocation", "Foundation"] }
