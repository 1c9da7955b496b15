[package]
name = "kinect_one"
version = "0.1.0"
edition = "2021"
publish = false

[dependencies]
zune-jpeg = "=0.4.21"
rusb = "=0.9.4"
rusb-async = "=0.0.1-alpha"
nusb = "=0.1.14"
thiserror = "=2.0.21"
tokio = { version = "=1.54.1", features = ["macros", "rt-multi-thread"] }
env_logger = "=0.11.11"
mozjpeg = "=0.10.13"
turbojpeg = "=1.5.1"
ocl = "=0.19.7"
