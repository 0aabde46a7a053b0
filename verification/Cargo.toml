[package]
name = "clean_ram_vps"
version = "1.0.0"
edition = "2021"
publish = false

[dependencies]
eframe = { version = "0.33", default-features = false, features = ["default_fonts", "glow", "x11"] }
sysinfo = { version = "=0.31.4", default-features = false, features = ["system"] }
windows-sys = { version = "0.61", features = ["Win32_Foundation"] }
