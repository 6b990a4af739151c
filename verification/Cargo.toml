[package]
name = "nexrad_volumetric"
version = "0.1.0"
edition = "2021"
publish = false

[dependencies]
aws-config = { version = "=1.12.0", default-features = false }
aws-sdk-s3 = { version = "=1.152.0", default-features = false }
bincode = "=1.3.3"
chrono = "=0.4.45"
serde = { version = "=1.0.229", features = ["derive"] }
serde-big-array = "=0.5.1"
three-d = { version = "=0.19.0", features = ["egui-gui"] }
tokio = { version = "=1.53.2", features = ["macros", "rt-multi-thread", "sync"] }
