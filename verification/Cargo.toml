[package]
name = "volym"
version = "0.1.0"
edition = "2021"
publish = false

[dependencies]
bytemuck = { version = "=1.25.2", features = ["derive"] }
cgmath = "=0.18.0"
clap = { version = "=4.6.7", default-features = false, features = ["std", "derive", "help", "usage", "error-context"] }
color-eyre = { version = "=0.6.5", default-features = false, features = ["capture-spantrace"] }
csv = "=1.4.0"
egui = { version = "=0.29.1", default-features = false }
egui-wgpu = { version = "=0.29.1", default-features = false }
egui-winit = { version = "=0.29.1", default-features = false, features = ["x11"] }
futures-intrusive = "=0.5.0"
image = { version = "=0.25.10", default-features = false, features = ["png"] }
pollster = "=0.3.0"
regex = "=1.13.1"
serde = { version = "=1.0.229", features = ["derive"] }
serde_json = "=1.0.154"
tracing = "=0.1.44"
tracing-error = "=0.2.1"
tracing-subscriber = { version = "=0.3.23", default-features = false, features = ["env-filter", "fmt", "std"] }
wgpu = { version = "=22.1.0", default-features = false, features = ["wgsl"] }
winit = { version = "=0.30.13", default-features = false, features = ["rwh_06", "x11"] }
