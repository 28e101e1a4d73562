[package]
name = "stadia_bridge"
version = "0.1.0"
edition = "2021"
publish = false

[dependencies]
anyhow = "*"
argh = "*"
scopeguard = "*"
tokio = { version = "*", features = ["macros", "process", "rt", "signal", "sync", "time"] }
vigem = "*"
windows = { version = "*", features = ["Win32_Devices_DeviceAndDriverInstallation", "Win32_Devices_HumanInterfaceDevice", "Win32_Foundation", "Win32_Storage_FileSystem", "Win32_System_Threading", "Win32_System_IO"] }
