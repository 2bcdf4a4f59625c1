[package]
name = "mirrox"
version = "0.1.0"
edition = "2021"
publish = false

[dependencies]
image = { version = "0.24", default-features = false, features = ["png"] }
thiserror = "1"
nix = "0.26"
libc = "0.2"
log = "0.4"
android_logger = "0.13"
jni = "0.21"
pipe = "0.4"
tokio = { version = "1", features = ["sync", "time", "rt-multi-thread", "macros"] }
futures-util = { version = "0.3", features = ["sink"] }
warp = "0.3"
sdl2 = "0.37"
ffmpeg-next = "7"
ffmpeg-sys-next = "7"
