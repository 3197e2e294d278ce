[package]
name = "reflink-copy"
version = "0.1.0"
edition = "2021"
publish = false

[dependencies]
libc = "=0.2.191"
rustix = { version = "=0.38.44", features = ["fs"] }
windows = { version = "=0.52.0", features = ["Win32_Foundation", "Win32_Storage_FileSystem", "Win32_System_Ioctl", "Win32_System_IO", "Win32_System_SystemServices"] }

[dev-dependencies]
tempfile = "3"
