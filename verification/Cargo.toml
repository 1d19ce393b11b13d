[package]
name = "wallguard_server"
version = "0.1.0"
edition = "2021"
publish = false

[dependencies]
serde_json = "=1.0.154"
serde = { version = "=1.0.229", features = ["derive"] }
chrono = "=0.4.45"
clap = { version = "=4.6.7", features = ["derive"] }
log = "=0.4.35"
futures = "=0.3.34"
tokio = { version = "=1.54.1", features = ["rt-multi-thread", "macros", "sync", "time"] }
tonic = "=0.12.3"
nullnet-libdatastore = "=0.4.9"
nullnet-liberror = "=0.1.1"
nullnet-libtoken = "=0.3.3"
nullnet-libipinfo = "=0.2.1"
md5 = "0.7"
