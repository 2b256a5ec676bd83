[package]
name = "archiver"
version = "0.1.0"
edition = "2021"
publish = false

[dependencies]
async-compression = { version = "*", features = ["tokio", "gzip", "zstd", "brotli", "deflate", "xz"] }
bytesize = "*"
chrono = "*"
clap = { version = "*", features = ["derive"] }
dirs = "*"
filetime = "*"
glob = "*"
humantime = "*"
lz4_flex = "*"
pad = "*"
path-absolutize = "*"
snafu = "*"
snap = "*"
substring = "*"
tempfile = "*"
time = "*"
tokio = { version = "*", features = ["rt", "rt-multi-thread", "fs", "io-util", "macros"] }
tokio-stream = "*"
tokio-tar = "*"
tracing = "*"
tracing-subscriber = { version = "*", features = ["local-time"] }
unix_mode = "*"
uuid = { version = "*", features = ["v7"] }
