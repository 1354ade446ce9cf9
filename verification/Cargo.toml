[package]
name = "mullvad_rpc"
version = "0.1.0"
edition = "2021"
publish = false

[dependencies]
chrono = { version = "=0.4.45", features = ["serde"] }
clap = "=3.2.25"
dirs-next = "2"
err-derive = "=0.3.1"
futures = "=0.3.34"
http = "=0.2.12"
hyper = { version = "=0.14.32", features = ["client", "http1", "http2", "tcp"] }
ipnetwork = "=0.16.0"
lazy_static = "=1.5.1"
log = "=0.4.34"
serde = { version = "=1.0.229", features = ["derive"] }
serde_json = "=1.0.154"
shadowsocks = "=1.25.0"
tokio = { version = "=1.54.1", features = ["full"] }
winapi = { version = "0.3", features = ["accctrl", "aclapi", "minwindef", "securitybaseapi", "winbase", "winerror", "winnt"] }
