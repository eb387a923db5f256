[package]
name = "r4dcb08_lib"
version = "0.3.0"
edition = "2021"
publish = false

[dependencies]
anyhow = "1"
clap = { version = "4", features = ["derive"] }
clap-num = "1"
clap-verbosity-flag = "*"
dialoguer = "*"
flexi_logger = "*"
humantime = "2"
log = "0.4"
serde = { version = "1", features = ["derive"] }
thiserror = "*"
tokio = { version = "1", features = ["sync", "rt", "time"] }
tokio-modbus = { version = "*", default-features = false, features = ["rtu", "tcp", "rtu-sync", "tcp-sync"] }
tokio-serial = { version = "*", default-features = false }
